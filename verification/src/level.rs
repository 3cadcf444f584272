use vstd::prelude::*;

verus! {

/// One ordered phase of the host application's lifecycle.
///
/// The host brings phases up in ascending order and tears them down in
/// reverse. The ordering is part of the public contract: the host uses the
/// minimum registered level to decide the earliest phase at which it must
/// call back into the extension.
#[derive(Copy, Clone, PartialEq, Eq, PartialOrd, Ord, Hash, Debug, Structural)]
pub enum InitLevel {
    Core,
    Servers,
    Scene,
    Editor,
}

impl InitLevel {
    /// Position of the level in the ascending lifecycle order. This is also
    /// the raw identifier the host uses for the level at the foreign
    /// boundary.
    pub open spec fn ordinal(self) -> int {
        match self {
            InitLevel::Core => 0,
            InitLevel::Servers => 1,
            InitLevel::Scene => 2,
            InitLevel::Editor => 3,
        }
    }

    /// The level a raw identifier of the host denotes. Identifiers outside
    /// the known range fall back to `Scene` rather than being rejected: the
    /// callback boundary has no room to report an error.
    pub open spec fn spec_from_sys(level: u32) -> InitLevel {
        if level == 0 {
            InitLevel::Core
        } else if level == 1 {
            InitLevel::Servers
        } else if level == 2 {
            InitLevel::Scene
        } else if level == 3 {
            InitLevel::Editor
        } else {
            InitLevel::Scene
        }
    }

    /// Converts a raw level identifier received from the host into the
    /// internal enumeration; unrecognized identifiers map to `Scene`.
    pub fn from_sys(level: u32) -> (r: Self)
        ensures
            r == InitLevel::spec_from_sys(level),
    {
        match level {
            0 => InitLevel::Core,
            1 => InitLevel::Servers,
            2 => InitLevel::Scene,
            3 => InitLevel::Editor,
            _ => InitLevel::Scene,
        }
    }

    /// Converts a level into the raw identifier the host expects, which is
    /// its ordinal in the lifecycle order. Known identifiers round-trip
    /// through `from_sys`.
    pub fn to_sys(self) -> (r: u32)
        ensures
            r == self.ordinal(),
            InitLevel::spec_from_sys(r) == self,
    {
        match self {
            InitLevel::Core => 0,
            InitLevel::Servers => 1,
            InitLevel::Scene => 2,
            InitLevel::Editor => 3,
        }
    }
}

} // verus!
