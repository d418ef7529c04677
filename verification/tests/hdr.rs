use glass::hdr::{
    capability_for, choose_surface_format, DisplayCapability, DxgiColorQuery, SurfaceFormat, DXGI_COLOR_SPACE_HDR10,
    DXGI_COLOR_SPACE_SCRGB,
};

#[test]
fn empty_capabilities_default_to_srgb() {
    let (f, name) = choose_surface_format(&vec![], DisplayCapability::Hdr, false);
    assert_eq!(f, SurfaceFormat::Bgra8UnormSrgb);
    assert_eq!(name, "SDR/sRGB (default)");
}

#[test]
fn hdr_display_prefers_float_format() {
    let caps = vec![SurfaceFormat::Bgra8UnormSrgb, SurfaceFormat::Rgba16Float];
    assert_eq!(
        choose_surface_format(&caps, DisplayCapability::Hdr, false),
        (SurfaceFormat::Rgba16Float, "HDR/scRGB")
    );
}

#[test]
fn forced_sdr_ignores_hdr() {
    let caps = vec![SurfaceFormat::Rgba16Float, SurfaceFormat::Bgra8UnormSrgb];
    assert_eq!(
        choose_surface_format(&caps, DisplayCapability::Hdr, true),
        (SurfaceFormat::Bgra8UnormSrgb, "SDR/sRGB")
    );
}

#[test]
fn sdr_and_unknown_displays_take_srgb() {
    let caps = vec![SurfaceFormat::Other(0), SurfaceFormat::Rgba16Float, SurfaceFormat::Bgra8UnormSrgb];
    for cap in [DisplayCapability::Sdr, DisplayCapability::Unknown] {
        assert_eq!(choose_surface_format(&caps, cap, false), (SurfaceFormat::Bgra8UnormSrgb, "SDR/sRGB"));
    }
}

#[test]
fn hdr_without_float_support_falls_back_to_first() {
    let caps = vec![SurfaceFormat::Other(7), SurfaceFormat::Other(3)];
    assert_eq!(
        choose_surface_format(&caps, DisplayCapability::Hdr, false),
        (SurfaceFormat::Other(7), "SDR/sRGB")
    );
}

#[test]
fn color_space_query_maps_to_capability() {
    assert_eq!(capability_for(DxgiColorQuery::Failed), DisplayCapability::Unknown);
    assert_eq!(capability_for(DxgiColorQuery::NoOutput6), DisplayCapability::Sdr);
    assert_eq!(capability_for(DxgiColorQuery::ColorSpace(DXGI_COLOR_SPACE_HDR10)), DisplayCapability::Hdr);
    assert_eq!(capability_for(DxgiColorQuery::ColorSpace(DXGI_COLOR_SPACE_SCRGB)), DisplayCapability::Hdr);
    // DXGI_COLOR_SPACE_RGB_FULL_G22_NONE_P709, the ordinary sRGB desktop.
    assert_eq!(capability_for(DxgiColorQuery::ColorSpace(0)), DisplayCapability::Sdr);
}
