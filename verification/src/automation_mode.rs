//! Automation modes and the host's numbers for them.

use vstd::prelude::*;

verus! {

/// How a track plays and records automation. As a global override the host also knows
/// `NoOverride` and `Bypass`.
#[derive(Clone, Copy, Debug, PartialEq, Eq, Structural)]
pub enum AutomationMode {
    Bypass,
    NoOverride,
    TrimRead,
    Read,
    Touch,
    Write,
    Latch,
    LatchPreview,
}

impl AutomationMode {
    /// The mode that the host's number stands for, if it stands for one.
    pub open spec fn spec_from_raw(raw: i32) -> Option<AutomationMode> {
        if raw == -2 {
            Some(AutomationMode::Bypass)
        } else if raw == -1 {
            Some(AutomationMode::NoOverride)
        } else if raw == 0 {
            Some(AutomationMode::TrimRead)
        } else if raw == 1 {
            Some(AutomationMode::Read)
        } else if raw == 2 {
            Some(AutomationMode::Touch)
        } else if raw == 3 {
            Some(AutomationMode::Write)
        } else if raw == 4 {
            Some(AutomationMode::Latch)
        } else if raw == 5 {
            Some(AutomationMode::LatchPreview)
        } else {
            None
        }
    }

    #[verifier::when_used_as_spec(spec_from_raw)]
    pub fn from_raw(raw: i32) -> (mode: Option<AutomationMode>)
        ensures
            mode == AutomationMode::spec_from_raw(raw),
            mode matches Some(m) ==> m.spec_to_raw() == raw,
    {
        if raw == -2 {
            Some(AutomationMode::Bypass)
        } else if raw == -1 {
            Some(AutomationMode::NoOverride)
        } else if raw == 0 {
            Some(AutomationMode::TrimRead)
        } else if raw == 1 {
            Some(AutomationMode::Read)
        } else if raw == 2 {
            Some(AutomationMode::Touch)
        } else if raw == 3 {
            Some(AutomationMode::Write)
        } else if raw == 4 {
            Some(AutomationMode::Latch)
        } else if raw == 5 {
            Some(AutomationMode::LatchPreview)
        } else {
            None
        }
    }

    pub open spec fn spec_to_raw(self) -> i32 {
        match self {
            AutomationMode::Bypass => -2i32,
            AutomationMode::NoOverride => -1i32,
            AutomationMode::TrimRead => 0,
            AutomationMode::Read => 1,
            AutomationMode::Touch => 2,
            AutomationMode::Write => 3,
            AutomationMode::Latch => 4,
            AutomationMode::LatchPreview => 5,
        }
    }

    #[verifier::when_used_as_spec(spec_to_raw)]
    pub fn to_raw(self) -> (raw: i32)
        ensures
            raw == self.spec_to_raw(),
            AutomationMode::spec_from_raw(raw) == Some(self),
    {
        match self {
            AutomationMode::Bypass => -2,
            AutomationMode::NoOverride => -1,
            AutomationMode::TrimRead => 0,
            AutomationMode::Read => 1,
            AutomationMode::Touch => 2,
            AutomationMode::Write => 3,
            AutomationMode::Latch => 4,
            AutomationMode::LatchPreview => 5,
        }
    }
}

} // verus!
