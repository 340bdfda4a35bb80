//! Sets of flags that the host takes as numbers.

use vstd::prelude::*;

verus! {

/// The host's number for "every part of the project", read as a signed number.
pub const UNDO_STATE_ALL: i32 = -1;

/// Part of a project that an undoable operation may have changed.
#[derive(Clone, Copy, Debug, PartialEq, Eq, Structural, Hash)]
pub enum ProjectPart {
    /// Freeze state.
    Freeze,
    /// Track and master FX.
    Fx,
    /// Track items.
    Items,
    /// Loop selection, markers, regions and extensions.
    MiscCfg,
    /// Track and master volume, pan and routing, and all envelopes.
    TrackCfg,
}

impl ProjectPart {
    /// The bit that the host uses for the part.
    pub open spec fn spec_bits(self) -> u32 {
        match self {
            ProjectPart::Freeze => 16,
            ProjectPart::Fx => 2,
            ProjectPart::Items => 4,
            ProjectPart::MiscCfg => 8,
            ProjectPart::TrackCfg => 1,
        }
    }

    #[verifier::when_used_as_spec(spec_bits)]
    pub fn bits(self) -> (b: u32)
        ensures
            b == self.spec_bits(),
    {
        match self {
            ProjectPart::Freeze => 16,
            ProjectPart::Fx => 2,
            ProjectPart::Items => 4,
            ProjectPart::MiscCfg => 8,
            ProjectPart::TrackCfg => 1,
        }
    }
}

/// A set of project parts.
#[derive(Clone, Copy, Debug, PartialEq, Eq, Structural, Hash)]
pub struct ProjectParts {
    pub freeze: bool,
    pub fx: bool,
    pub items: bool,
    pub misc_cfg: bool,
    pub track_cfg: bool,
}

impl ProjectParts {
    pub open spec fn spec_contains(self, part: ProjectPart) -> bool {
        match part {
            ProjectPart::Freeze => self.freeze,
            ProjectPart::Fx => self.fx,
            ProjectPart::Items => self.items,
            ProjectPart::MiscCfg => self.misc_cfg,
            ProjectPart::TrackCfg => self.track_cfg,
        }
    }

    /// The bits of all parts in the set, added up. No two parts share a bit.
    pub open spec fn spec_bits(self) -> u32 {
        ((if self.freeze { 16int } else { 0 }) + (if self.fx { 2int } else { 0 }) + (if self.items {
            4int
        } else {
            0
        }) + (if self.misc_cfg { 8int } else { 0 }) + (if self.track_cfg { 1int } else { 0 })) as u32
    }

    pub fn empty() -> (s: ProjectParts)
        ensures
            forall|p: ProjectPart| !s.spec_contains(p),
            s.spec_bits() == 0,
    {
        ProjectParts { freeze: false, fx: false, items: false, misc_cfg: false, track_cfg: false }
    }

    /// The set with one part added.
    pub fn with(self, part: ProjectPart) -> (s: ProjectParts)
        ensures
            s.spec_contains(part),
            forall|p: ProjectPart| p != part ==> s.spec_contains(p) == self.spec_contains(p),
            s.spec_bits() == if self.spec_contains(part) {
                self.spec_bits() as int
            } else {
                self.spec_bits() + part.spec_bits()
            },
    {
        let mut s = self;
        match part {
            ProjectPart::Freeze => {
                s.freeze = true;
            },
            ProjectPart::Fx => {
                s.fx = true;
            },
            ProjectPart::Items => {
                s.items = true;
            },
            ProjectPart::MiscCfg => {
                s.misc_cfg = true;
            },
            ProjectPart::TrackCfg => {
                s.track_cfg = true;
            },
        }
        s
    }

    #[verifier::when_used_as_spec(spec_contains)]
    pub fn contains(self, part: ProjectPart) -> (b: bool)
        ensures
            b == self.spec_contains(part),
    {
        match part {
            ProjectPart::Freeze => self.freeze,
            ProjectPart::Fx => self.fx,
            ProjectPart::Items => self.items,
            ProjectPart::MiscCfg => self.misc_cfg,
            ProjectPart::TrackCfg => self.track_cfg,
        }
    }

    #[verifier::when_used_as_spec(spec_bits)]
    pub fn bits(self) -> (b: u32)
        ensures
            b == self.spec_bits(),
            b <= 31,
    {
        let mut b: u32 = 0;
        if self.freeze {
            b = b + 16;
        }
        if self.fx {
            b = b + 2;
        }
        if self.items {
            b = b + 4;
        }
        if self.misc_cfg {
            b = b + 8;
        }
        if self.track_cfg {
            b = b + 1;
        }
        b
    }
}

/// What an undo point has to cover.
#[derive(Clone, Copy, Debug, PartialEq, Eq, Structural)]
pub enum UndoScope {
    /// Everything may have changed. The safest choice, and the largest undo state.
    All,
    /// Only the given parts may have changed.
    Scoped(ProjectParts),
}

impl UndoScope {
    pub open spec fn spec_to_raw(self) -> i32 {
        match self {
            UndoScope::All => UNDO_STATE_ALL,
            UndoScope::Scoped(parts) => parts.spec_bits() as i32,
        }
    }

    /// The number that the host's undo functions take for the scope.
    #[verifier::when_used_as_spec(spec_to_raw)]
    pub fn to_raw(self) -> (raw: i32)
        ensures
            raw == self.spec_to_raw(),
            self is Scoped ==> 0 <= raw <= 31,
    {
        match self {
            UndoScope::All => UNDO_STATE_ALL,
            UndoScope::Scoped(parts) => parts.bits() as i32,
        }
    }
}

/// Area of the host's window in which a track is shown.
#[derive(Clone, Copy, Debug, PartialEq, Eq, Structural, Hash)]
pub enum TrackArea {
    /// Track control panel.
    Tcp,
    /// Mixer control panel.
    Mcp,
}

impl TrackArea {
    pub open spec fn spec_bits(self) -> u32 {
        match self {
            TrackArea::Tcp => 1,
            TrackArea::Mcp => 2,
        }
    }

    #[verifier::when_used_as_spec(spec_bits)]
    pub fn bits(self) -> (b: u32)
        ensures
            b == self.spec_bits(),
    {
        match self {
            TrackArea::Tcp => 1,
            TrackArea::Mcp => 2,
        }
    }
}

/// How the host buffers when it plays a preview.
#[derive(Clone, Copy, Debug, PartialEq, Eq, Structural, Hash)]
pub enum BufferingBehavior {
    /// Buffers the source.
    BufferSource,
    /// Takes changes of the source's length as vari-speed.
    VariSpeed,
}

impl BufferingBehavior {
    pub open spec fn spec_bits(self) -> u32 {
        match self {
            BufferingBehavior::BufferSource => 1,
            BufferingBehavior::VariSpeed => 2,
        }
    }

    #[verifier::when_used_as_spec(spec_bits)]
    pub fn bits(self) -> (b: u32)
        ensures
            b == self.spec_bits(),
    {
        match self {
            BufferingBehavior::BufferSource => 1,
            BufferingBehavior::VariSpeed => 2,
        }
    }
}

/// Which keys belong to an accelerator.
#[derive(Clone, Copy, Debug, PartialEq, Eq, Structural, Hash)]
pub enum AcceleratorBehavior {
    /// The ALT key must be held down.
    Alt,
    /// The CTRL key must be held down.
    Control,
    /// The SHIFT key must be held down.
    Shift,
    /// The key is a virtual-key code, not a character code.
    VirtKey,
}

impl AcceleratorBehavior {
    pub open spec fn spec_bits(self) -> u8 {
        match self {
            AcceleratorBehavior::Alt => 0x10,
            AcceleratorBehavior::Control => 0x08,
            AcceleratorBehavior::Shift => 0x04,
            AcceleratorBehavior::VirtKey => 0x01,
        }
    }

    #[verifier::when_used_as_spec(spec_bits)]
    pub fn bits(self) -> (b: u8)
        ensures
            b == self.spec_bits(),
    {
        match self {
            AcceleratorBehavior::Alt => 0x10,
            AcceleratorBehavior::Control => 0x08,
            AcceleratorBehavior::Shift => 0x04,
            AcceleratorBehavior::VirtKey => 0x01,
        }
    }
}

} // verus!
