use helgoboss_midi::{U14, U7};
use reaper_rs::automation_mode::AutomationMode;
use reaper_rs::error::ReaperError;
use reaper_rs::flags::{AcceleratorBehavior, BufferingBehavior, ProjectPart, ProjectParts, TrackArea, UndoScope};
use reaper_rs::fx::get_index_from_query_index;
use reaper_rs::misc_enums::{
    ActionValueChange, ExtensionType, FxShowFlag, GangBehavior, InputMonitoringMode, MasterTrackBehavior,
    MidiDeviceId, ProjectRef, RecordArmState, StuffMidiMessageTarget, TrackDefaultsBehavior,
    TrackFxAddByNameBehavior, TrackFxChainType, TrackFxRef, TrackRef, TrackSendCategory, TrackSendDirection,
    TransferBehavior, UndoBehavior, UndoHint, ValueChange,
};

#[test]
fn two_way_enums_as_bool() {
    assert!(bool::from(TrackFxChainType::InputFxChain));
    assert!(!bool::from(TrackFxChainType::NormalFxChain));
    assert!(bool::from(MasterTrackBehavior::IncludeMasterTrack));
    assert!(!bool::from(MasterTrackBehavior::ExcludeMasterTrack));
    assert!(bool::from(UndoHint::IsUndo));
    assert!(!bool::from(UndoHint::Normal));
    assert!(bool::from(UndoBehavior::AddUndoPoint));
    assert!(!bool::from(UndoBehavior::OmitUndoPoint));
    assert!(bool::from(TransferBehavior::Move));
    assert!(!bool::from(TransferBehavior::Copy));
    assert!(bool::from(TrackDefaultsBehavior::AddDefaultEnvAndFx));
    assert!(!bool::from(TrackDefaultsBehavior::OmitDefaultEnvAndFx));
    assert!(bool::from(GangBehavior::AllowGang));
    assert!(!bool::from(GangBehavior::DenyGang));
}

#[test]
fn numbered_enums_as_i32() {
    assert_eq!(i32::from(RecordArmState::Unarmed), 0);
    assert_eq!(i32::from(RecordArmState::Armed), 1);
    assert_eq!(i32::from(FxShowFlag::HideChain), 0);
    assert_eq!(i32::from(FxShowFlag::ShowChain), 1);
    assert_eq!(i32::from(FxShowFlag::HideFloatingWindow), 2);
    assert_eq!(i32::from(FxShowFlag::ShowFloatingWindow), 3);
    assert_eq!(i32::from(TrackSendDirection::Receive), -1);
    assert_eq!(i32::from(TrackSendDirection::Send), 0);
    assert_eq!(i32::from(TrackSendCategory::Receive), -1);
    assert_eq!(i32::from(TrackSendCategory::Send), 0);
    assert_eq!(i32::from(TrackSendCategory::HardwareOutput), 1);
    assert_eq!(i32::from(TrackFxAddByNameBehavior::Add), -1);
    assert_eq!(i32::from(TrackFxAddByNameBehavior::Query), 0);
    assert_eq!(i32::from(TrackFxAddByNameBehavior::AddIfNotFound), 1);
    assert_eq!(TrackSendCategory::from(TrackSendDirection::Receive), TrackSendCategory::Receive);
    assert_eq!(TrackSendCategory::from(TrackSendDirection::Send), TrackSendCategory::Send);
}

#[test]
fn input_monitoring_mode_numbers() {
    assert_eq!(i32::from(InputMonitoringMode::Off), 0);
    assert_eq!(i32::from(InputMonitoringMode::Normal), 1);
    assert_eq!(i32::from(InputMonitoringMode::NotWhenPlaying), 2);
    assert_eq!(InputMonitoringMode::from_raw(0), Some(InputMonitoringMode::Off));
    assert_eq!(InputMonitoringMode::from_raw(2), Some(InputMonitoringMode::NotWhenPlaying));
    assert_eq!(InputMonitoringMode::from_raw(3), None);
    assert_eq!(InputMonitoringMode::from_raw(-1), None);
}

#[test]
fn automation_mode_numbers() {
    for raw in -2..=5 {
        assert_eq!(AutomationMode::from_raw(raw).unwrap().to_raw(), raw);
    }
    assert_eq!(AutomationMode::from_raw(6), None);
    assert_eq!(AutomationMode::from_raw(-3), None);
    assert_eq!(AutomationMode::NoOverride.to_raw(), -1);
    assert_eq!(AutomationMode::LatchPreview.to_raw(), 5);
}

#[test]
fn stuff_midi_message_target_numbers() {
    assert_eq!(i32::from(StuffMidiMessageTarget::VirtualMidiKeyboardQueue), 0);
    assert_eq!(i32::from(StuffMidiMessageTarget::MidiAsControlInputQueue), 1);
    assert_eq!(i32::from(StuffMidiMessageTarget::VirtualMidiKeyboardQueueOnCurrentChannel), 2);
    assert_eq!(i32::from(StuffMidiMessageTarget::MidiOutputDevice(MidiDeviceId(0))), 16);
    assert_eq!(i32::from(StuffMidiMessageTarget::MidiOutputDevice(MidiDeviceId(5))), 21);
    assert_eq!(i32::from(StuffMidiMessageTarget::MidiOutputDevice(MidiDeviceId(255))), 271);
}

#[test]
fn track_fx_ref_numbers() {
    assert_eq!(i32::from(TrackFxRef::NormalFxChain(0)), 0);
    assert_eq!(i32::from(TrackFxRef::NormalFxChain(7)), 7);
    assert_eq!(i32::from(TrackFxRef::InputFxChain(0)), 0x1000000);
    assert_eq!(i32::from(TrackFxRef::InputFxChain(3)), 0x1000003);
    assert_eq!(TrackFxRef::from(7u32), TrackFxRef::NormalFxChain(7));
    assert_eq!(TrackFxRef::from(0xFFFFFFu32), TrackFxRef::NormalFxChain(0xFFFFFF));
    assert_eq!(TrackFxRef::from(0x1000000u32), TrackFxRef::InputFxChain(0));
    assert_eq!(TrackFxRef::from(0x1000003u32), TrackFxRef::InputFxChain(3));
    // Beyond 31 bits the sum is cut and read as a signed number.
    assert_eq!(i32::from(TrackFxRef::NormalFxChain(u32::MAX)), -1);
    assert_eq!(i32::from(TrackFxRef::InputFxChain(u32::MAX)), 0x00FF_FFFF);
    assert_eq!(get_index_from_query_index(5), (5, false));
    assert_eq!(get_index_from_query_index(0x1000005), (5, true));
    assert_eq!(get_index_from_query_index(-1), (u32::MAX, false));
}

#[test]
fn value_change_accessors() {
    assert_eq!(ValueChange::Absolute(5).value(), 5);
    assert_eq!(ValueChange::Relative(-3).value(), -3);
    assert!(ValueChange::Relative(1u8).is_relative());
    assert!(!ValueChange::Absolute(1u8).is_relative());
}

#[test]
fn action_value_change_carries_midi_numbers() {
    let low = ActionValueChange::AbsoluteLowRes(U7::new(100));
    assert_eq!(low, ActionValueChange::AbsoluteLowRes(U7::new(100)));
    assert_ne!(low, ActionValueChange::Relative1(U7::new(100)));
    let high = ActionValueChange::AbsoluteHighRes(U14::new(16383));
    match high {
        ActionValueChange::AbsoluteHighRes(v) => assert_eq!(v.get(), 16383),
        _ => unreachable!(),
    }
    assert_ne!(ActionValueChange::Relative2(U7::new(1)), ActionValueChange::Relative3(U7::new(1)));
}

#[test]
fn extension_type_keys() {
    assert_eq!(ExtensionType::api("GetTrack").key(), "API_GetTrack");
    assert_eq!(ExtensionType::api_def("GetTrack").key(), "APIdef_GetTrack");
    assert_eq!(ExtensionType::custom("my_key").key(), "my_key");
    assert_eq!(ExtensionType::HookCommand.key(), "hookcommand");
    assert_eq!(ExtensionType::HookPostCommand.key(), "hookpostcommand");
    assert_eq!(ExtensionType::HookCommand2.key(), "hookcommand2");
    assert_eq!(ExtensionType::ToggleAction.key(), "toggleaction");
    assert_eq!(ExtensionType::ActionHelp.key(), "action_help");
    assert_eq!(ExtensionType::CommandId.key(), "command_id");
    assert_eq!(ExtensionType::CommandIdLookup.key(), "command_id_lookup");
    assert_eq!(ExtensionType::GAccel.key(), "gaccel");
    assert_eq!(ExtensionType::CSurfInst.key(), "csurf_inst");
}

#[test]
fn refs_compare_by_content() {
    assert_eq!(TrackRef::NormalTrack(2), TrackRef::NormalTrack(2));
    assert_ne!(TrackRef::NormalTrack(2), TrackRef::MasterTrack);
    assert_eq!(ProjectRef::Tab(1), ProjectRef::Tab(1));
    assert_ne!(ProjectRef::Current, ProjectRef::CurrentlyRendering);
}

#[test]
fn undo_scope_numbers() {
    assert_eq!(UndoScope::All.to_raw(), -1);
    assert_eq!(UndoScope::Scoped(ProjectParts::empty()).to_raw(), 0);
    let parts = ProjectParts::empty().with(ProjectPart::Fx).with(ProjectPart::Items);
    assert_eq!(UndoScope::Scoped(parts).to_raw(), 6);
    assert_eq!(parts.with(ProjectPart::Fx), parts);
    assert!(parts.contains(ProjectPart::Items));
    assert!(!parts.contains(ProjectPart::Freeze));
    let all = parts.with(ProjectPart::Freeze).with(ProjectPart::MiscCfg).with(ProjectPart::TrackCfg);
    assert_eq!(all.bits(), 31);
    assert_eq!(UndoScope::Scoped(all).to_raw(), 31);
    assert_eq!(ProjectPart::Freeze.bits(), 16);
    assert_eq!(ProjectPart::Fx.bits(), 2);
    assert_eq!(ProjectPart::Items.bits(), 4);
    assert_eq!(ProjectPart::MiscCfg.bits(), 8);
    assert_eq!(ProjectPart::TrackCfg.bits(), 1);
}

#[test]
fn flag_bits() {
    assert_eq!(TrackArea::Tcp.bits(), 1);
    assert_eq!(TrackArea::Mcp.bits(), 2);
    assert_eq!(BufferingBehavior::BufferSource.bits(), 1);
    assert_eq!(BufferingBehavior::VariSpeed.bits(), 2);
    assert_eq!(AcceleratorBehavior::Alt.bits(), 0x10);
    assert_eq!(AcceleratorBehavior::Control.bits(), 0x08);
    assert_eq!(AcceleratorBehavior::Shift.bits(), 0x04);
    assert_eq!(AcceleratorBehavior::VirtKey.bits(), 0x01);
}

#[test]
fn error_texts_and_recoverability() {
    assert!(ReaperError::Unavailable.is_recoverable());
    assert!(ReaperError::MissingHostFunction.is_recoverable());
    assert!(ReaperError::DuplicationUnsupported.is_recoverable());
    assert!(!ReaperError::NotInitialized.is_recoverable());
    assert!(!ReaperError::UseAfterInvalidation.is_recoverable());
    assert_eq!(ReaperError::NotInitialized.message(), "runtime accessed before it was installed");
    assert_eq!(ReaperError::MissingHostFunction.message(), "host function has not been loaded");
}
