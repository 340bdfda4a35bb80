//! Small enumerations and the numbers that the host uses for them.

use helgoboss_midi::{U14, U7};
use vstd::prelude::*;
use vstd::std_specs::convert::FromSpecImpl;
use vstd::string::*;

verus! {

/// A number from 0 to 127, as `helgoboss_midi` keeps it. Nothing is known of a value here
/// but that it is one.
#[verifier::external_type_specification]
#[verifier::external_body]
pub struct ExU7(helgoboss_midi::U7);

/// A number from 0 to 16383, as `helgoboss_midi` keeps it. Nothing is known of a value
/// here but that it is one.
#[verifier::external_type_specification]
#[verifier::external_body]
pub struct ExU14(helgoboss_midi::U14);

/// Which of a track's two FX chains is meant.
#[derive(Clone, Copy, Debug, PartialEq, Eq, Structural)]
pub enum TrackFxChainType {
    NormalFxChain,
    /// On the master track this is the monitoring FX chain.
    InputFxChain,
}

impl From<TrackFxChainType> for bool {
    fn from(v: TrackFxChainType) -> (b: bool) {
        v == TrackFxChainType::InputFxChain
    }
}

impl FromSpecImpl<TrackFxChainType> for bool {
    open spec fn obeys_from_spec() -> bool {
        true
    }

    open spec fn from_spec(v: TrackFxChainType) -> bool {
        v == TrackFxChainType::InputFxChain
    }
}

/// Whether an operation on all tracks also covers the master track.
#[derive(Clone, Copy, Debug, PartialEq, Eq, Structural)]
pub enum MasterTrackBehavior {
    ExcludeMasterTrack,
    IncludeMasterTrack,
}

impl From<MasterTrackBehavior> for bool {
    fn from(v: MasterTrackBehavior) -> (b: bool) {
        v == MasterTrackBehavior::IncludeMasterTrack
    }
}

impl FromSpecImpl<MasterTrackBehavior> for bool {
    open spec fn obeys_from_spec() -> bool {
        true
    }

    open spec fn from_spec(v: MasterTrackBehavior) -> bool {
        v == MasterTrackBehavior::IncludeMasterTrack
    }
}

/// Tells the host whether a state change comes from an undo.
#[derive(Clone, Copy, Debug, PartialEq, Eq, Structural)]
pub enum UndoHint {
    Normal,
    IsUndo,
}

impl From<UndoHint> for bool {
    fn from(v: UndoHint) -> (b: bool) {
        v == UndoHint::IsUndo
    }
}

impl FromSpecImpl<UndoHint> for bool {
    open spec fn obeys_from_spec() -> bool {
        true
    }

    open spec fn from_spec(v: UndoHint) -> bool {
        v == UndoHint::IsUndo
    }
}

/// Whether the host records an undo point for the change.
#[derive(Clone, Copy, Debug, PartialEq, Eq, Structural)]
pub enum UndoBehavior {
    OmitUndoPoint,
    AddUndoPoint,
}

impl From<UndoBehavior> for bool {
    fn from(v: UndoBehavior) -> (b: bool) {
        v == UndoBehavior::AddUndoPoint
    }
}

impl FromSpecImpl<UndoBehavior> for bool {
    open spec fn obeys_from_spec() -> bool {
        true
    }

    open spec fn from_spec(v: UndoBehavior) -> bool {
        v == UndoBehavior::AddUndoPoint
    }
}

/// Whether an object is copied to its new place or moved there.
#[derive(Clone, Copy, Debug, PartialEq, Eq, Structural)]
pub enum TransferBehavior {
    Copy,
    Move,
}

impl From<TransferBehavior> for bool {
    fn from(v: TransferBehavior) -> (b: bool) {
        v == TransferBehavior::Move
    }
}

impl FromSpecImpl<TransferBehavior> for bool {
    open spec fn obeys_from_spec() -> bool {
        true
    }

    open spec fn from_spec(v: TransferBehavior) -> bool {
        v == TransferBehavior::Move
    }
}

/// Whether a new track gets the default envelopes and FX.
#[derive(Clone, Copy, Debug, PartialEq, Eq, Structural)]
pub enum TrackDefaultsBehavior {
    OmitDefaultEnvAndFx,
    AddDefaultEnvAndFx,
}

impl From<TrackDefaultsBehavior> for bool {
    fn from(v: TrackDefaultsBehavior) -> (b: bool) {
        v == TrackDefaultsBehavior::AddDefaultEnvAndFx
    }
}

impl FromSpecImpl<TrackDefaultsBehavior> for bool {
    open spec fn obeys_from_spec() -> bool {
        true
    }

    open spec fn from_spec(v: TrackDefaultsBehavior) -> bool {
        v == TrackDefaultsBehavior::AddDefaultEnvAndFx
    }
}

/// Whether a change may spread to the other selected tracks.
#[derive(Clone, Copy, Debug, PartialEq, Eq, Structural)]
pub enum GangBehavior {
    DenyGang,
    AllowGang,
}

impl From<GangBehavior> for bool {
    fn from(v: GangBehavior) -> (b: bool) {
        v == GangBehavior::AllowGang
    }
}

impl FromSpecImpl<GangBehavior> for bool {
    open spec fn obeys_from_spec() -> bool {
        true
    }

    open spec fn from_spec(v: GangBehavior) -> bool {
        v == GangBehavior::AllowGang
    }
}

/// Whether a track is armed for recording.
#[derive(Clone, Copy, Debug, PartialEq, Eq, Structural)]
pub enum RecordArmState {
    Unarmed,
    Armed,
}

impl From<RecordArmState> for i32 {
    fn from(v: RecordArmState) -> (raw: i32) {
        match v {
            RecordArmState::Unarmed => 0,
            RecordArmState::Armed => 1,
        }
    }
}

impl FromSpecImpl<RecordArmState> for i32 {
    open spec fn obeys_from_spec() -> bool {
        true
    }

    open spec fn from_spec(v: RecordArmState) -> i32 {
        match v {
            RecordArmState::Unarmed => 0,
            RecordArmState::Armed => 1,
        }
    }
}

/// What to do with the window of an FX.
#[derive(Clone, Copy, Debug, PartialEq, Eq, Structural)]
pub enum FxShowFlag {
    HideChain,
    ShowChain,
    HideFloatingWindow,
    ShowFloatingWindow,
}

impl From<FxShowFlag> for i32 {
    fn from(v: FxShowFlag) -> (raw: i32) {
        match v {
            FxShowFlag::HideChain => 0,
            FxShowFlag::ShowChain => 1,
            FxShowFlag::HideFloatingWindow => 2,
            FxShowFlag::ShowFloatingWindow => 3,
        }
    }
}

impl FromSpecImpl<FxShowFlag> for i32 {
    open spec fn obeys_from_spec() -> bool {
        true
    }

    open spec fn from_spec(v: FxShowFlag) -> i32 {
        match v {
            FxShowFlag::HideChain => 0,
            FxShowFlag::ShowChain => 1,
            FxShowFlag::HideFloatingWindow => 2,
            FxShowFlag::ShowFloatingWindow => 3,
        }
    }
}

/// Direction of a send between two tracks.
#[derive(Clone, Copy, Debug, PartialEq, Eq, Structural)]
pub enum TrackSendDirection {
    Receive,
    Send,
}

impl From<TrackSendDirection> for i32 {
    fn from(v: TrackSendDirection) -> (raw: i32) {
        match v {
            TrackSendDirection::Receive => -1i32,
            TrackSendDirection::Send => 0,
        }
    }
}

impl FromSpecImpl<TrackSendDirection> for i32 {
    open spec fn obeys_from_spec() -> bool {
        true
    }

    open spec fn from_spec(v: TrackSendDirection) -> i32 {
        match v {
            TrackSendDirection::Receive => -1i32,
            TrackSendDirection::Send => 0,
        }
    }
}

/// Kind of a send as the host counts them.
#[derive(Clone, Copy, Debug, PartialEq, Eq, Structural)]
pub enum TrackSendCategory {
    Receive,
    Send,
    HardwareOutput,
}

impl From<TrackSendCategory> for i32 {
    fn from(v: TrackSendCategory) -> (raw: i32) {
        match v {
            TrackSendCategory::Receive => -1i32,
            TrackSendCategory::Send => 0,
            TrackSendCategory::HardwareOutput => 1,
        }
    }
}

impl FromSpecImpl<TrackSendCategory> for i32 {
    open spec fn obeys_from_spec() -> bool {
        true
    }

    open spec fn from_spec(v: TrackSendCategory) -> i32 {
        match v {
            TrackSendCategory::Receive => -1i32,
            TrackSendCategory::Send => 0,
            TrackSendCategory::HardwareOutput => 1,
        }
    }
}

/// What the host does when an FX is looked up by name.
#[derive(Clone, Copy, Debug, PartialEq, Eq, Structural)]
pub enum TrackFxAddByNameBehavior {
    Add,
    Query,
    AddIfNotFound,
}

impl From<TrackFxAddByNameBehavior> for i32 {
    fn from(v: TrackFxAddByNameBehavior) -> (raw: i32) {
        match v {
            TrackFxAddByNameBehavior::Add => -1i32,
            TrackFxAddByNameBehavior::Query => 0,
            TrackFxAddByNameBehavior::AddIfNotFound => 1,
        }
    }
}

impl FromSpecImpl<TrackFxAddByNameBehavior> for i32 {
    open spec fn obeys_from_spec() -> bool {
        true
    }

    open spec fn from_spec(v: TrackFxAddByNameBehavior) -> i32 {
        match v {
            TrackFxAddByNameBehavior::Add => -1i32,
            TrackFxAddByNameBehavior::Query => 0,
            TrackFxAddByNameBehavior::AddIfNotFound => 1,
        }
    }
}

/// How a track monitors its input.
#[derive(Clone, Copy, Debug, PartialEq, Eq, Structural)]
pub enum InputMonitoringMode {
    Off,
    Normal,
    /// Tape style.
    NotWhenPlaying,
}

impl From<InputMonitoringMode> for i32 {
    fn from(v: InputMonitoringMode) -> (raw: i32) {
        match v {
            InputMonitoringMode::Off => 0,
            InputMonitoringMode::Normal => 1,
            InputMonitoringMode::NotWhenPlaying => 2,
        }
    }
}

impl FromSpecImpl<InputMonitoringMode> for i32 {
    open spec fn obeys_from_spec() -> bool {
        true
    }

    open spec fn from_spec(v: InputMonitoringMode) -> i32 {
        match v {
            InputMonitoringMode::Off => 0,
            InputMonitoringMode::Normal => 1,
            InputMonitoringMode::NotWhenPlaying => 2,
        }
    }
}

impl InputMonitoringMode {
    /// The mode that the host's number stands for, if it stands for one.
    pub open spec fn spec_from_raw(raw: i32) -> Option<InputMonitoringMode> {
        if raw == 0 {
            Some(InputMonitoringMode::Off)
        } else if raw == 1 {
            Some(InputMonitoringMode::Normal)
        } else if raw == 2 {
            Some(InputMonitoringMode::NotWhenPlaying)
        } else {
            None
        }
    }

    #[verifier::when_used_as_spec(spec_from_raw)]
    pub fn from_raw(raw: i32) -> (mode: Option<InputMonitoringMode>)
        ensures
            mode == InputMonitoringMode::spec_from_raw(raw),
            mode matches Some(m) ==> <i32 as vstd::std_specs::convert::FromSpec<InputMonitoringMode>>::from_spec(m) == raw,
    {
        if raw == 0 {
            Some(InputMonitoringMode::Off)
        } else if raw == 1 {
            Some(InputMonitoringMode::Normal)
        } else if raw == 2 {
            Some(InputMonitoringMode::NotWhenPlaying)
        } else {
            None
        }
    }
}

/// A change of a value, either to a new value or by an amount.
#[derive(Clone, Copy, Debug, PartialEq, Eq)]
pub enum ValueChange<T: Copy> {
    Absolute(T),
    Relative(T),
}

impl<T: Copy> ValueChange<T> {
    /// The number that the change carries, whichever kind it is.
    pub open spec fn spec_value(&self) -> T {
        match *self {
            ValueChange::Absolute(v) => v,
            ValueChange::Relative(v) => v,
        }
    }

    #[verifier::when_used_as_spec(spec_value)]
    pub fn value(&self) -> (v: T)
        ensures
            v == self.spec_value(),
    {
        match self {
            ValueChange::Absolute(v) => *v,
            ValueChange::Relative(v) => *v,
        }
    }

    pub open spec fn spec_is_relative(&self) -> bool {
        *self is Relative
    }

    #[verifier::when_used_as_spec(spec_is_relative)]
    pub fn is_relative(&self) -> (b: bool)
        ensures
            b == self.spec_is_relative(),
    {
        match self {
            ValueChange::Absolute(_) => false,
            ValueChange::Relative(_) => true,
        }
    }
}

impl From<TrackSendDirection> for TrackSendCategory {
    fn from(v: TrackSendDirection) -> (c: TrackSendCategory) {
        match v {
            TrackSendDirection::Receive => TrackSendCategory::Receive,
            TrackSendDirection::Send => TrackSendCategory::Send,
        }
    }
}

impl FromSpecImpl<TrackSendDirection> for TrackSendCategory {
    open spec fn obeys_from_spec() -> bool {
        true
    }

    open spec fn from_spec(v: TrackSendDirection) -> TrackSendCategory {
        match v {
            TrackSendDirection::Receive => TrackSendCategory::Receive,
            TrackSendDirection::Send => TrackSendCategory::Send,
        }
    }
}

/// Number of a MIDI device as the host counts them.
#[derive(Clone, Copy, Debug, PartialEq, Eq, Structural)]
pub struct MidiDeviceId(pub u8);

/// Where a MIDI message is put when it is handed to the host.
#[derive(Clone, Copy, Debug, PartialEq, Eq, Structural)]
pub enum StuffMidiMessageTarget {
    VirtualMidiKeyboardQueue,
    MidiAsControlInputQueue,
    VirtualMidiKeyboardQueueOnCurrentChannel,
    MidiOutputDevice(MidiDeviceId),
}

impl From<StuffMidiMessageTarget> for i32 {
    fn from(t: StuffMidiMessageTarget) -> (raw: i32) {
        match t {
            StuffMidiMessageTarget::VirtualMidiKeyboardQueue => 0,
            StuffMidiMessageTarget::MidiAsControlInputQueue => 1,
            StuffMidiMessageTarget::VirtualMidiKeyboardQueueOnCurrentChannel => 2,
            StuffMidiMessageTarget::MidiOutputDevice(id) => 16 + id.0 as i32,
        }
    }
}

impl FromSpecImpl<StuffMidiMessageTarget> for i32 {
    open spec fn obeys_from_spec() -> bool {
        true
    }

    open spec fn from_spec(t: StuffMidiMessageTarget) -> i32 {
        match t {
            StuffMidiMessageTarget::VirtualMidiKeyboardQueue => 0,
            StuffMidiMessageTarget::MidiAsControlInputQueue => 1,
            StuffMidiMessageTarget::VirtualMidiKeyboardQueueOnCurrentChannel => 2,
            StuffMidiMessageTarget::MidiOutputDevice(id) => (16 + id.0) as i32,
        }
    }
}

/// First number that the host uses for the FX of an input chain.
pub const INPUT_FX_OFFSET: u32 = 0x1000000;

/// Position of an FX in one of a track's two chains.
#[derive(Clone, Copy, Debug, PartialEq, Eq, Structural)]
pub enum TrackFxRef {
    NormalFxChain(u32),
    InputFxChain(u32),
}

impl TrackFxRef {
    /// The number that the host's track FX functions take for this position: the index
    /// itself in the normal chain, the index above [`INPUT_FX_OFFSET`] in the input chain.
    /// The sum is cut to 32 bits and read as a signed number.
    pub open spec fn spec_to_raw(self) -> i32 {
        match self {
            TrackFxRef::InputFxChain(idx) => (INPUT_FX_OFFSET as u64 + idx as u64) as i32,
            TrackFxRef::NormalFxChain(idx) => (idx as u64) as i32,
        }
    }

    /// The position that a number returned by the host stands for.
    pub open spec fn spec_from_raw(v: u32) -> TrackFxRef {
        if v >= INPUT_FX_OFFSET {
            TrackFxRef::InputFxChain((v - INPUT_FX_OFFSET) as u32)
        } else {
            TrackFxRef::NormalFxChain(v)
        }
    }
}

impl From<TrackFxRef> for i32 {
    fn from(v: TrackFxRef) -> (raw: i32) {
        let positive: u64 = match v {
            TrackFxRef::InputFxChain(idx) => INPUT_FX_OFFSET as u64 + idx as u64,
            TrackFxRef::NormalFxChain(idx) => idx as u64,
        };
        positive as i32
    }
}

impl FromSpecImpl<TrackFxRef> for i32 {
    open spec fn obeys_from_spec() -> bool {
        true
    }

    open spec fn from_spec(v: TrackFxRef) -> i32 {
        v.spec_to_raw()
    }
}

impl From<u32> for TrackFxRef {
    fn from(v: u32) -> (r: TrackFxRef) {
        if v >= INPUT_FX_OFFSET {
            TrackFxRef::InputFxChain(v - INPUT_FX_OFFSET)
        } else {
            TrackFxRef::NormalFxChain(v)
        }
    }
}

impl FromSpecImpl<u32> for TrackFxRef {
    open spec fn obeys_from_spec() -> bool {
        true
    }

    open spec fn from_spec(v: u32) -> TrackFxRef {
        TrackFxRef::spec_from_raw(v)
    }
}

/// A position in either chain that fits the host's numbering comes back unchanged from
/// the host's number.
pub proof fn lemma_track_fx_ref_round_trip(r: TrackFxRef)
    requires
        r matches TrackFxRef::NormalFxChain(idx) ==> idx < INPUT_FX_OFFSET,
        r matches TrackFxRef::InputFxChain(idx) ==> INPUT_FX_OFFSET + idx <= i32::MAX,
    ensures
        r.spec_to_raw() >= 0,
        TrackFxRef::spec_from_raw(r.spec_to_raw() as u32) == r,
{
}

/// How far and in which way a control was moved when it triggered an action.
#[derive(Clone, Copy, Debug, PartialEq, Eq)]
pub enum ActionValueChange {
    AbsoluteLowRes(U7),
    AbsoluteHighRes(U14),
    Relative1(U7),
    Relative2(U7),
    Relative3(U7),
}

/// What a plugin registers with the host. `Api`, `ApiDef` and `Custom` carry a name.
#[derive(Clone, Debug)]
pub enum ExtensionType {
    Api(String),
    ApiDef(String),
    HookCommand,
    HookPostCommand,
    HookCommand2,
    ToggleAction,
    ActionHelp,
    CommandId,
    CommandIdLookup,
    GAccel,
    CSurfInst,
    Custom(String),
}

impl ExtensionType {
    pub fn api(func_name: &str) -> (e: ExtensionType)
        ensures
            e matches ExtensionType::Api(name) && name@ == func_name@,
    {
        ExtensionType::Api(func_name.to_owned())
    }

    pub fn api_def(func_def: &str) -> (e: ExtensionType)
        ensures
            e matches ExtensionType::ApiDef(name) && name@ == func_def@,
    {
        ExtensionType::ApiDef(func_def.to_owned())
    }

    pub fn custom(key: &str) -> (e: ExtensionType)
        ensures
            e matches ExtensionType::Custom(name) && name@ == key@,
    {
        ExtensionType::Custom(key.to_owned())
    }

    /// The key under which the host files a registration of this kind.
    pub open spec fn spec_key(self) -> Seq<char> {
        match self {
            ExtensionType::GAccel => "gaccel"@,
            ExtensionType::CSurfInst => "csurf_inst"@,
            ExtensionType::Api(func_name) => "API_"@ + func_name@,
            ExtensionType::ApiDef(func_def) => "APIdef_"@ + func_def@,
            ExtensionType::HookCommand => "hookcommand"@,
            ExtensionType::HookPostCommand => "hookpostcommand"@,
            ExtensionType::HookCommand2 => "hookcommand2"@,
            ExtensionType::ToggleAction => "toggleaction"@,
            ExtensionType::ActionHelp => "action_help"@,
            ExtensionType::CommandId => "command_id"@,
            ExtensionType::CommandIdLookup => "command_id_lookup"@,
            ExtensionType::Custom(k) => k@,
        }
    }

    pub fn key(self) -> (key: String)
        ensures
            key@ == self.spec_key(),
    {
        match self {
            ExtensionType::GAccel => "gaccel".to_owned(),
            ExtensionType::CSurfInst => "csurf_inst".to_owned(),
            ExtensionType::Api(func_name) => "API_".to_owned().concat(func_name.as_str()),
            ExtensionType::ApiDef(func_def) => "APIdef_".to_owned().concat(func_def.as_str()),
            ExtensionType::HookCommand => "hookcommand".to_owned(),
            ExtensionType::HookPostCommand => "hookpostcommand".to_owned(),
            ExtensionType::HookCommand2 => "hookcommand2".to_owned(),
            ExtensionType::ToggleAction => "toggleaction".to_owned(),
            ExtensionType::ActionHelp => "action_help".to_owned(),
            ExtensionType::CommandId => "command_id".to_owned(),
            ExtensionType::CommandIdLookup => "command_id_lookup".to_owned(),
            ExtensionType::Custom(k) => k,
        }
    }
}

/// A track of a project: the master track or a normal track by position.
#[derive(Clone, Copy, Debug, PartialEq, Eq, Structural)]
pub enum TrackRef {
    MasterTrack,
    NormalTrack(u32),
}

/// A project as the host's enumeration names it.
#[derive(Clone, Copy, Debug, PartialEq, Eq, Structural)]
pub enum ProjectRef {
    Current,
    CurrentlyRendering,
    Tab(u32),
}

} // verus!
