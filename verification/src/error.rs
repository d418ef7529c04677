//! Error type shared by every fallible GLASS operation.
use vstd::prelude::*;

verus! {

/// Top-level error type for GLASS.
#[derive(Debug)]
pub enum GlassError {
    /// DirectComposition initialization failed.
    CompositionInit(String),
    /// wgpu surface/device creation failed.
    WgpuInit(String),
    /// Win32 window creation failed.
    WindowCreation(String),
    /// HDR detection failed — falling back to SDR.
    HdrUnavailable(String),
    /// Configuration loading or parsing failed.
    ConfigError(String),
    /// Input subsystem error (hotkey registration, mode switch).
    InputError(String),
    /// Generic OS error with HRESULT.
    OsError(String),
    /// Anti-cheat safety gate blocked startup.
    SafetyBlock(String),
}

impl GlassError {
    /// The human-readable prefix that introduces each kind of error.
    pub open spec fn spec_prefix(&self) -> Seq<char> {
        match self {
            GlassError::CompositionInit(_) => "DirectComposition init failed: "@,
            GlassError::WgpuInit(_) => "wgpu init failed: "@,
            GlassError::WindowCreation(_) => "Window creation failed: "@,
            GlassError::HdrUnavailable(_) => "HDR unavailable (SDR fallback): "@,
            GlassError::ConfigError(_) => "Config error: "@,
            GlassError::InputError(_) => "Input error: "@,
            GlassError::OsError(_) => "OS error: "@,
            GlassError::SafetyBlock(_) => "Anti-cheat safety block: "@,
        }
    }

    /// The detail text carried by the error.
    pub open spec fn spec_detail(&self) -> Seq<char> {
        match self {
            GlassError::CompositionInit(m) => m@,
            GlassError::WgpuInit(m) => m@,
            GlassError::WindowCreation(m) => m@,
            GlassError::HdrUnavailable(m) => m@,
            GlassError::ConfigError(m) => m@,
            GlassError::InputError(m) => m@,
            GlassError::OsError(m) => m@,
            GlassError::SafetyBlock(m) => m@,
        }
    }

    /// The full message: the kind's prefix followed by the detail text.
    pub open spec fn spec_message(&self) -> Seq<char> {
        self.spec_prefix() + self.spec_detail()
    }

    fn prefix(&self) -> (r: &'static str)
        ensures
            r@ == self.spec_prefix(),
    {
        match self {
            GlassError::CompositionInit(_) => "DirectComposition init failed: ",
            GlassError::WgpuInit(_) => "wgpu init failed: ",
            GlassError::WindowCreation(_) => "Window creation failed: ",
            GlassError::HdrUnavailable(_) => "HDR unavailable (SDR fallback): ",
            GlassError::ConfigError(_) => "Config error: ",
            GlassError::InputError(_) => "Input error: ",
            GlassError::OsError(_) => "OS error: ",
            GlassError::SafetyBlock(_) => "Anti-cheat safety block: ",
        }
    }

    /// The detail text carried by the error.
    pub fn detail(&self) -> (r: &str)
        ensures
            r@ == self.spec_detail(),
    {
        match self {
            GlassError::CompositionInit(m) => m.as_str(),
            GlassError::WgpuInit(m) => m.as_str(),
            GlassError::WindowCreation(m) => m.as_str(),
            GlassError::HdrUnavailable(m) => m.as_str(),
            GlassError::ConfigError(m) => m.as_str(),
            GlassError::InputError(m) => m.as_str(),
            GlassError::OsError(m) => m.as_str(),
            GlassError::SafetyBlock(m) => m.as_str(),
        }
    }

    /// The user-facing message, e.g. `"Config error: <detail>"`.
    pub fn to_string(&self) -> (r: String)
        ensures
            r@ == self.spec_message(),
    {
        let mut out = String::from_str(self.prefix());
        out.append(self.detail());
        out
    }
}

} // verus!
