use vstd::prelude::*;

verus! {

/// Which kind of adapter to ask for.
#[derive(Clone, Copy, Debug, PartialEq, Eq, Structural)]
pub enum PowerPreference {
    NoPreference,
    LowPower,
    HighPerformance,
}

/// Which graphics backends device acquisition may use.
#[derive(Clone, Copy, Debug, PartialEq, Eq, Structural)]
pub enum BackendSelection {
    /// Rendering is switched off: no device is ever acquired.
    Disabled,
    /// The platform's usual backends, unless the environment names others.
    PlatformDefault,
    /// Exactly this bit set of backends.
    Only(u32),
}

/// How to create, or recreate, the render device.
#[derive(Clone, Copy, Debug, PartialEq, Eq, Structural)]
pub struct RenderCreation {
    pub backends: BackendSelection,
    pub power_preference: PowerPreference,
    /// Bit set of the optional native device features to request.
    pub features: u64,
    /// Bit set of the optional web-standard device features to request.
    pub web_features: u64,
}

impl Default for RenderCreation {
    fn default() -> (r: Self)
        ensures
            r.backends == BackendSelection::PlatformDefault,
            r.power_preference == PowerPreference::HighPerformance,
            r.features == 0,
            r.web_features == 0,
    {
        RenderCreation {
            backends: BackendSelection::PlatformDefault,
            power_preference: PowerPreference::HighPerformance,
            features: 0,
            web_features: 0,
        }
    }
}

impl RenderCreation {
    /// Whether acquisition can begin at all: only when some backend may be used.
    pub fn can_begin(&self) -> (r: bool)
        ensures
            r == (self.backends != BackendSelection::Disabled),
    {
        !matches!(self.backends, BackendSelection::Disabled)
    }
}

} // verus!
