//! HDR capability and the choice of the surface format.
//!
//! The renderer prefers a 16-bit float surface for scRGB output on an HDR
//! display, and the explicit SDR path (8-bit sRGB) otherwise, or when the
//! SDR path is forced.
use vstd::prelude::*;

verus! {

/// Detected display capability.
#[derive(Debug, Clone, Copy, PartialEq, Eq, Structural)]
pub enum DisplayCapability {
    /// HDR-capable display (scRGB or ST.2084).
    Hdr,
    /// SDR-only display.
    Sdr,
    /// Could not determine (fallback to SDR).
    Unknown,
}

/// Result of HDR detection for a specific output.
#[derive(Debug, Clone)]
pub struct HdrDetectionResult {
    /// Detected display capability (HDR, SDR, or Unknown).
    pub capability: DisplayCapability,
    /// Human-readable color space reported for the output.
    pub color_space: String,
    /// Display output device name.
    pub output_name: String,
}

/// `DXGI_COLOR_SPACE_RGB_FULL_G10_NONE_P709`: linear scRGB.
pub const DXGI_COLOR_SPACE_SCRGB: i32 = 1;
/// `DXGI_COLOR_SPACE_RGB_FULL_G2084_NONE_P2020`: HDR10 (ST.2084, BT.2020).
pub const DXGI_COLOR_SPACE_HDR10: i32 = 12;

/// What the query of the primary output's color space came to.
#[derive(Debug, Clone, Copy, PartialEq, Eq, Structural)]
pub enum DxgiColorQuery {
    /// No factory, adapter or output could be had, or the output's
    /// description could not be read.
    Failed,
    /// The output has no `IDXGIOutput6` interface (Windows before 1803).
    NoOutput6,
    /// The output reported this `DXGI_COLOR_SPACE_TYPE` value.
    ColorSpace(i32),
}

/// The capability a color-space query stands for: HDR for the scRGB and
/// ST.2084 color spaces, SDR for any other color space or for an output
/// that cannot report one, unknown when the query failed.
pub open spec fn capability_of(q: DxgiColorQuery) -> DisplayCapability {
    match q {
        DxgiColorQuery::Failed => DisplayCapability::Unknown,
        DxgiColorQuery::NoOutput6 => DisplayCapability::Sdr,
        DxgiColorQuery::ColorSpace(cs) => if cs == DXGI_COLOR_SPACE_HDR10 || cs == DXGI_COLOR_SPACE_SCRGB {
            DisplayCapability::Hdr
        } else {
            DisplayCapability::Sdr
        },
    }
}

/// The display capability that a color-space query of the primary output
/// reports.
pub fn capability_for(q: DxgiColorQuery) -> (c: DisplayCapability)
    ensures
        c == capability_of(q),
{
    match q {
        DxgiColorQuery::Failed => DisplayCapability::Unknown,
        DxgiColorQuery::NoOutput6 => DisplayCapability::Sdr,
        DxgiColorQuery::ColorSpace(cs) => if cs == DXGI_COLOR_SPACE_HDR10 || cs == DXGI_COLOR_SPACE_SCRGB {
            DisplayCapability::Hdr
        } else {
            DisplayCapability::Sdr
        },
    }
}

/// A surface texture format, as far as the choice between formats goes.
#[derive(Debug, Clone, Copy, PartialEq, Eq, Structural)]
pub enum SurfaceFormat {
    /// 16-bit float RGBA, the scRGB HDR format.
    Rgba16Float,
    /// 8-bit BGRA with sRGB encoding, the preferred SDR format.
    Bgra8UnormSrgb,
    /// Any other format, identified by a code of the caller's choosing.
    Other(u32),
}

/// The format and the pipeline name chosen among the surface's supported
/// formats `caps`: with no formats listed, sRGB BGRA by default; the HDR
/// format when the display is HDR, the SDR path is not forced and the
/// surface supports it; otherwise sRGB BGRA if supported, else the first
/// supported format.
pub open spec fn chosen_format(caps: Seq<SurfaceFormat>, hdr: DisplayCapability, force_sdr: bool) -> (
    SurfaceFormat,
    Seq<char>,
) {
    if caps.len() == 0 {
        (SurfaceFormat::Bgra8UnormSrgb, "SDR/sRGB (default)"@)
    } else if !force_sdr && hdr == DisplayCapability::Hdr && caps.contains(SurfaceFormat::Rgba16Float) {
        (SurfaceFormat::Rgba16Float, "HDR/scRGB"@)
    } else if caps.contains(SurfaceFormat::Bgra8UnormSrgb) {
        (SurfaceFormat::Bgra8UnormSrgb, "SDR/sRGB"@)
    } else {
        (caps[0], "SDR/sRGB"@)
    }
}

fn supports(caps: &Vec<SurfaceFormat>, f: SurfaceFormat) -> (r: bool)
    ensures
        r == caps@.contains(f),
{
    let n = caps.len();
    let mut i: usize = 0;
    while i < n
        invariant
            n == caps@.len(),
            0 <= i <= n,
            forall|j: int| 0 <= j < i ==> caps@[j] != f,
        decreases n - i,
    {
        if caps[i] == f {
            assert(caps@[i as int] == f);
            return true;
        }
        i += 1;
    }
    false
}

/// Choose the surface format based on HDR capability.
///
/// Returns `(format, pipeline_name)`, the pipeline name being
/// `"HDR/scRGB"`, `"SDR/sRGB"`, or `"SDR/sRGB (default)"` when the surface
/// lists no formats.
pub fn choose_surface_format(caps: &Vec<SurfaceFormat>, hdr: DisplayCapability, force_sdr: bool) -> (r: (
    SurfaceFormat,
    &'static str,
))
    ensures
        r.0 == chosen_format(caps@, hdr, force_sdr).0,
        r.1@ == chosen_format(caps@, hdr, force_sdr).1,
{
    if caps.len() == 0 {
        return (SurfaceFormat::Bgra8UnormSrgb, "SDR/sRGB (default)");
    }
    if !force_sdr && hdr == DisplayCapability::Hdr && supports(caps, SurfaceFormat::Rgba16Float) {
        return (SurfaceFormat::Rgba16Float, "HDR/scRGB");
    }
    if supports(caps, SurfaceFormat::Bgra8UnormSrgb) {
        (SurfaceFormat::Bgra8UnormSrgb, "SDR/sRGB")
    } else {
        (caps[0], "SDR/sRGB")
    }
}

} // verus!
