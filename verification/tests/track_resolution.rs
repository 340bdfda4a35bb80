use reaper_rs::automation_mode::AutomationMode;
use reaper_rs::error::ReaperError;
use reaper_rs::guid::Guid;
use reaper_rs::host::{FxState, ProjectState, TrackState};
use reaper_rs::low_level::{FunctionTable, MediaTrack, ReaProject};
use reaper_rs::misc_enums::InputMonitoringMode;
use reaper_rs::project::Project;
use reaper_rs::reaper::Reaper;
use reaper_rs::recording_input::{MidiRecordingInput, RecordingInput};
use reaper_rs::request::HostRequest;
use reaper_rs::track::{index_from_track_number, LightTrack, Track, TrackLink};

fn table_without(missing: &'static str) -> FunctionTable {
    FunctionTable::with_all_functions_loaded(&move |name: &'static str| -> isize {
        if name == missing {
            0
        } else {
            0x1000
        }
    })
}

fn full_table() -> FunctionTable {
    table_without("")
}

fn track(address: usize, guid: u128, name: &str, number: i32) -> TrackState {
    TrackState {
        media_track: MediaTrack { address },
        guid: Guid::new(guid),
        name: name.to_string(),
        project: None,
        track_number: number,
        input_monitoring_mode: InputMonitoringMode::Normal,
        rec_input_index: 4096 + 63 * 32,
        automation_mode: AutomationMode::Read,
        normal_fx: vec![FxState { guid: Guid::new(900), window_has_focus: false, parameter_count: 3 }],
        input_fx: vec![],
    }
}

fn project(address: usize, tracks: Vec<TrackState>) -> ProjectState {
    ProjectState {
        rea_project: ReaProject { address },
        master_track: track(address + 1, address as u128, "", -1),
        tracks,
    }
}

fn host(table: FunctionTable, tracks: Vec<TrackState>) -> Reaper {
    Reaper::new(table, ReaProject { address: 0x100 }, vec![project(0x100, tracks)])
}

const P: ReaProject = ReaProject { address: 0x100 };

#[test]
fn resolve_finds_track_after_reordering() {
    let before = host(full_table(), vec![track(0xA0, 1, "a", 1), track(0xB0, 2, "b", 2), track(0xC0, 3, "c", 3)]);
    let mut handle = Track::new(&before, MediaTrack { address: 0xB0 }, Some(P)).unwrap();
    assert_eq!(handle.guid, Guid::new(2));
    assert_eq!(handle.resolve(&before), Ok(MediaTrack { address: 0xB0 }));
    let after = host(full_table(), vec![track(0xC0, 3, "c", 1), track(0xA0, 1, "a", 2), track(0xB0, 2, "b", 3)]);
    assert_eq!(handle.resolve(&after), Ok(MediaTrack { address: 0xB0 }));
    assert_eq!(handle.get_name(&after), Ok("b".to_string()));
    assert_eq!(handle.get_index(&after), Ok(2));
}

#[test]
fn resolve_follows_identity_to_a_new_address() {
    let before = host(full_table(), vec![track(0xA0, 1, "a", 1), track(0xB0, 2, "b", 2)]);
    let mut handle = Track::new(&before, MediaTrack { address: 0xB0 }, Some(P)).unwrap();
    // The track was taken away and put back: same identity, another address, another place.
    let after = host(full_table(), vec![track(0xD0, 2, "b", 1), track(0xA0, 1, "a", 2)]);
    assert_eq!(handle.resolve(&after), Ok(MediaTrack { address: 0xD0 }));
    assert_eq!(handle.link, TrackLink::Loaded(MediaTrack { address: 0xD0 }));
}

#[test]
fn resolve_goes_by_identity_not_by_position() {
    let reaper = host(full_table(), vec![track(0xA0, 1, "a", 1), track(0xB0, 2, "b", 2)]);
    let mut handle = Track::from_guid(P, Guid::new(2));
    assert_eq!(handle.link, TrackLink::Unloaded);
    assert_eq!(*handle.get_guid(), Guid::new(2));
    assert_eq!(handle.resolve(&reaper), Ok(MediaTrack { address: 0xB0 }));
    assert_eq!(handle.get_media_track(&reaper), Ok(MediaTrack { address: 0xB0 }));
    let mut gone = Track::from_guid(P, Guid::new(9));
    assert_eq!(gone.get_media_track(&reaper), Err(ReaperError::Unavailable));
}

#[test]
fn resolve_fails_for_deleted_track_until_it_returns() {
    let before = host(full_table(), vec![track(0xA0, 1, "a", 1), track(0xB0, 2, "b", 2)]);
    let mut handle = Track::new(&before, MediaTrack { address: 0xB0 }, Some(P)).unwrap();
    let deleted = host(full_table(), vec![track(0xA0, 1, "a", 1)]);
    assert_eq!(handle.resolve(&deleted), Err(ReaperError::Unavailable));
    assert_eq!(handle.link, TrackLink::Unavailable);
    assert_eq!(handle.resolve(&deleted), Err(ReaperError::Unavailable));
    assert_eq!(handle.is_available(&deleted), Ok(false));
    assert_eq!(handle.get_name(&deleted), Err(ReaperError::Unavailable));
    // Undo brings the track back under its identity.
    let restored = host(full_table(), vec![track(0xA0, 1, "a", 1), track(0xE0, 2, "b", 2)]);
    assert_eq!(handle.resolve(&restored), Ok(MediaTrack { address: 0xE0 }));
    assert_eq!(handle.is_available(&restored), Ok(true));
}

#[test]
fn resolve_does_not_cross_projects() {
    let reaper = Reaper::new(
        full_table(),
        ReaProject { address: 0x100 },
        vec![project(0x100, vec![track(0xA0, 1, "a", 1)]), project(0x200, vec![track(0xB0, 2, "b", 1)])],
    );
    let mut handle = Track::from_guid(P, Guid::new(2));
    assert_eq!(handle.resolve(&reaper), Err(ReaperError::Unavailable));
    let mut other = Track::from_guid(ReaProject { address: 0x200 }, Guid::new(2));
    assert_eq!(other.resolve(&reaper), Ok(MediaTrack { address: 0xB0 }));
}

#[test]
fn resolve_fails_in_closed_project() {
    let reaper = host(full_table(), vec![track(0xA0, 1, "a", 1)]);
    let mut handle = Track::from_guid(ReaProject { address: 0x999 }, Guid::new(1));
    assert_eq!(handle.resolve(&reaper), Err(ReaperError::Unavailable));
}

#[test]
fn handle_states_and_the_ways_between_them() {
    let with_track = host(full_table(), vec![track(0xA0, 1, "a", 1)]);
    let without = host(full_table(), vec![]);
    let mut handle = Track::from_guid(P, Guid::new(1));
    // A handle that never held an address stays unloaded when nothing is found.
    assert_eq!(handle.resolve(&without), Err(ReaperError::Unavailable));
    assert_eq!(handle.link, TrackLink::Unloaded);
    assert_eq!(handle.resolve(&with_track), Ok(MediaTrack { address: 0xA0 }));
    assert_eq!(handle.link, TrackLink::Loaded(MediaTrack { address: 0xA0 }));
    assert_eq!(handle.resolve(&without), Err(ReaperError::Unavailable));
    assert_eq!(handle.link, TrackLink::Unavailable);
    assert_eq!(handle.resolve(&without), Err(ReaperError::Unavailable));
    assert_eq!(handle.link, TrackLink::Unavailable);
    assert_eq!(handle.resolve(&with_track), Ok(MediaTrack { address: 0xA0 }));
    assert_eq!(handle.link, TrackLink::Loaded(MediaTrack { address: 0xA0 }));
}

#[test]
fn container_is_discovered_current_project_first() {
    let reaper = Reaper::new(
        full_table(),
        ReaProject { address: 0x200 },
        vec![
            project(0x100, vec![track(0xA0, 1, "a", 1)]),
            project(0x200, vec![track(0xB0, 2, "b", 1)]),
            project(0x300, vec![track(0xA0, 7, "x", 1)]),
        ],
    );
    // An old host names no project for a track.
    let mut in_current = Track::new(&reaper, MediaTrack { address: 0xB0 }, None).unwrap();
    assert_eq!(in_current.rea_project, None);
    assert_eq!(in_current.resolve(&reaper), Ok(MediaTrack { address: 0xB0 }));
    assert_eq!(in_current.rea_project, Some(ReaProject { address: 0x200 }));
    // Not in the current project: the first other project in tab order wins.
    let mut elsewhere = Track::new(&reaper, MediaTrack { address: 0xA0 }, None).unwrap();
    assert_eq!(elsewhere.guid, Guid::new(1));
    assert_eq!(elsewhere.get_project(&reaper), Ok(Project::new(ReaProject { address: 0x100 })));
    assert_eq!(reaper.find_containing_project(MediaTrack { address: 0xF0 }), None);
}

#[test]
fn new_takes_the_project_that_the_host_names() {
    let mut state = track(0xA0, 1, "a", 1);
    state.project = Some(P);
    let reaper = host(full_table(), vec![state]);
    let handle = Track::new(&reaper, MediaTrack { address: 0xA0 }, None).unwrap();
    assert_eq!(handle.rea_project, Some(P));
    let light = LightTrack::new(&reaper, MediaTrack { address: 0xA0 }, None).unwrap();
    assert_eq!(Track::from(light), handle);
    assert_eq!(LightTrack::from(handle), light);
}

#[test]
fn new_rejects_dead_address() {
    let reaper = host(full_table(), vec![track(0xA0, 1, "a", 1)]);
    assert_eq!(Track::new(&reaper, MediaTrack { address: 0xB0 }, Some(P)), Err(ReaperError::UseAfterInvalidation));
    assert_eq!(LightTrack::new(&reaper, MediaTrack { address: 0xB0 }, None), Err(ReaperError::UseAfterInvalidation));
}

#[test]
fn track_name_fails_without_media_track_info_entry_point() {
    let table = table_without("GetSetMediaTrackInfo");
    let reaper = host(table, vec![track(0xA0, 1, "a", 1)]);
    let mut handle = Track::from_guid(P, Guid::new(1));
    assert_eq!(handle.get_name(&reaper), Err(ReaperError::MissingHostFunction));
    assert_eq!(handle.get_name(&reaper), Err(ReaperError::MissingHostFunction));
    assert_eq!(handle.link, TrackLink::Unloaded);
    assert_eq!(Track::new(&reaper, MediaTrack { address: 0xA0 }, Some(P)), Err(ReaperError::MissingHostFunction));
    assert_eq!(handle.set_name(&reaper, "x"), Err(ReaperError::MissingHostFunction));
}

#[test]
fn master_track_has_fixed_name_and_index() {
    let reaper = host(full_table(), vec![track(0xA0, 1, "a", 1)]);
    let mut master = Project::new(P).get_master_track(&reaper).unwrap();
    assert_eq!(master.get_name(&reaper), Ok("<Master track>".to_string()));
    assert_eq!(master.get_index(&reaper), Ok(-1));
    assert_eq!(master.is_master_track(&reaper), Ok(true));
    let mut normal = Project::new(P).get_track_by_index(&reaper, 0).unwrap();
    assert_eq!(normal.is_master_track(&reaper), Ok(false));
    assert_eq!(normal.get_index(&reaper), Ok(0));
    assert_eq!(Project::new(P).get_track_by_index(&reaper, 1), None);
    assert_eq!(Project::new(P).get_track_count(&reaper), 1);
}

#[test]
fn index_from_track_number_values() {
    assert_eq!(index_from_track_number(0), 0);
    assert_eq!(index_from_track_number(-1), -1);
    assert_eq!(index_from_track_number(1), 0);
    assert_eq!(index_from_track_number(17), 16);
    assert_eq!(index_from_track_number(i32::MAX), i32::MAX - 1);
    assert_eq!(index_from_track_number(-2), -3);
    assert_eq!(index_from_track_number(i32::MIN + 1), i32::MIN);
}

#[test]
fn set_name_asks_the_host_with_the_resolved_address() {
    let reaper = host(full_table(), vec![track(0xA0, 1, "a", 1)]);
    let mut handle = Track::from_guid(P, Guid::new(1));
    assert_eq!(
        handle.set_name(&reaper, "drums"),
        Ok(HostRequest::SetTrackName { track: MediaTrack { address: 0xA0 }, name: "drums".to_string() })
    );
}

#[test]
fn input_monitoring_round_trip() {
    let reaper = host(full_table(), vec![track(0xA0, 1, "a", 1)]);
    let mut handle = Track::from_guid(P, Guid::new(1));
    assert_eq!(handle.get_input_monitoring_mode(&reaper), Ok(InputMonitoringMode::Normal));
    assert_eq!(
        handle.set_input_monitoring_mode(&reaper, InputMonitoringMode::NotWhenPlaying),
        Ok(HostRequest::SetInputMonitoringMode { track: MediaTrack { address: 0xA0 }, mode: 2, allow_gang: false })
    );
    let poor = host(table_without("CSurf_OnInputMonitorChangeEx"), vec![track(0xA0, 1, "a", 1)]);
    let mut unloaded = Track::from_guid(P, Guid::new(1));
    assert_eq!(
        unloaded.set_input_monitoring_mode(&poor, InputMonitoringMode::Off),
        Err(ReaperError::MissingHostFunction)
    );
    assert_eq!(unloaded.link, TrackLink::Unloaded);
}

#[test]
fn recording_input_requests() {
    let reaper = host(full_table(), vec![track(0xA0, 1, "a", 1)]);
    let mut handle = Track::from_guid(P, Guid::new(1));
    assert_eq!(
        handle.get_recording_input(&reaper),
        Ok(RecordingInput::Midi(MidiRecordingInput::new(4096 + 63 * 32)))
    );
    assert_eq!(
        handle.set_recording_input(&reaper, MidiRecordingInput::new(4097)),
        Ok((
            HostRequest::SetRecordingInput { track: MediaTrack { address: 0xA0 }, rec_input_index: 4097 },
            HostRequest::NotifyInputMonitor { track: MediaTrack { address: 0xA0 }, rec_mon: 1 },
        ))
    );
    assert_eq!(RecordingInput::from_rec_input_index(-1), RecordingInput::NoInput);
    assert_eq!(RecordingInput::from_rec_input_index(5), RecordingInput::Audio(5));
    assert_eq!(MidiRecordingInput::new(9).get_rec_input_index(), 9);
}

#[test]
fn effective_automation_mode_prefers_the_override() {
    let mut reaper = host(full_table(), vec![track(0xA0, 1, "a", 1)]);
    let mut handle = Track::from_guid(P, Guid::new(1));
    assert_eq!(handle.get_effective_automation_mode(&reaper), Ok(AutomationMode::Read));
    assert_eq!(handle.get_automation_mode(&reaper), Ok(AutomationMode::Read));
    reaper.global_automation_override = AutomationMode::Touch;
    let mut untouched = Track::from_guid(P, Guid::new(77));
    assert_eq!(untouched.get_effective_automation_mode(&reaper), Ok(AutomationMode::Touch));
    assert_eq!(untouched.link, TrackLink::Unloaded);
    assert_eq!(untouched.get_automation_mode(&reaper), Err(ReaperError::Unavailable));
}

#[test]
fn fx_by_query_index() {
    let mut state = track(0xA0, 1, "a", 1);
    state.input_fx = vec![FxState { guid: Guid::new(901), window_has_focus: true, parameter_count: 1 }];
    let reaper = host(full_table(), vec![state]);
    let handle = Track::from_guid(P, Guid::new(1));
    let normal = handle.get_fx_by_query_index(&reaper, 0).unwrap().unwrap();
    assert_eq!(normal.guid, Guid::new(900));
    assert!(!normal.is_input_fx);
    assert_eq!(normal.track.link, TrackLink::Loaded(MediaTrack { address: 0xA0 }));
    let input = handle.get_fx_by_query_index(&reaper, 0x1000000).unwrap().unwrap();
    assert_eq!(input.guid, Guid::new(901));
    assert!(input.is_input_fx);
    assert_eq!(input.window_has_focus(&reaper), Ok(true));
    assert_eq!(normal.window_has_focus(&reaper), Ok(false));
    assert_eq!(handle.get_fx_by_query_index(&reaper, 1), Ok(None));
    assert_eq!(handle.get_fx_by_query_index(&reaper, 0x1000001), Ok(None));
    assert_eq!(handle.get_normal_fx_chain().is_input_fx, false);
    assert_eq!(handle.get_input_fx_chain().track, handle);
    assert_eq!(handle.get_index_based_send_by_index(3).index, 3);
    assert_eq!(normal.get_parameter_by_index(2).index, 2);
}

#[test]
fn ill_formed_host_is_detected() {
    let good = host(full_table(), vec![track(0xA0, 1, "a", 1)]);
    assert!(good.is_well_formed());
    let odd = host(full_table(), vec![track(0xA0, 1, "a", -2)]);
    assert!(odd.is_well_formed());
    let bad = host(full_table(), vec![track(0xA0, 1, "a", i32::MIN)]);
    assert!(!bad.is_well_formed());
    let short = Reaper::new(FunctionTable { addresses: vec![1, 2] }, P, vec![]);
    assert!(!short.is_well_formed());
}
