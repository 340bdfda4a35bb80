//! Track handles that find their track again by its identity.

use crate::automation_mode::AutomationMode;
use crate::error::ReaperError;
use crate::fx::{get_index_from_query_index, spec_index_from_query_index, Fx, FxChain};
use crate::guid::Guid;
use crate::host::{track_at, track_with_guid, TrackState};
use crate::low_level::{HostFunction, MediaTrack, ReaProject};
use crate::misc_enums::InputMonitoringMode;
use crate::project::Project;
use crate::reaper::Reaper;
use crate::recording_input::{MidiRecordingInput, RecordingInput};
use crate::request::HostRequest;
use crate::search::{lemma_first_index, lemma_first_index_of_only_match};
use crate::track_send::TrackSend;
use crate::validator::other_project_holding;
use vstd::prelude::*;
use vstd::std_specs::convert::FromSpecImpl;
use vstd::string::*;

verus! {

/// What a track handle knows of the address of its track.
#[derive(Clone, Copy, Debug, PartialEq, Eq, Structural)]
pub enum TrackLink {
    /// No address yet: the handle was made from an identity and never looked up.
    Unloaded,
    /// The address at which the track was found last. It is checked again before each use.
    Loaded(MediaTrack),
    /// The handle held an address once, and the last lookup found no track with the
    /// identity.
    Unavailable,
}

/// A track handle that can be copied. It converts to and from [`Track`].
#[derive(Clone, Copy, Debug, PartialEq, Eq, Structural)]
pub struct LightTrack {
    pub link: TrackLink,
    pub rea_project: Option<ReaProject>,
    pub guid: Guid,
}

/// A handle to a track of the host. It is keyed by the track's identity and keeps the
/// address and the project where it found the track last. Neither is trusted: every
/// operation checks them against the host and looks the track up again by its identity
/// where they fail.
#[derive(Clone, Debug, PartialEq, Eq, Structural)]
pub struct Track {
    pub link: TrackLink,
    pub rea_project: Option<ReaProject>,
    pub guid: Guid,
}

/// The handle that `new` makes from what the host answers about an address.
pub open spec fn spec_new_track(
    reaper: Reaper,
    media_track: MediaTrack,
    rea_project: Option<ReaProject>,
) -> Result<Track, ReaperError> {
    if !reaper.spec_has(HostFunction::GetSetMediaTrackInfo) {
        Err(ReaperError::MissingHostFunction)
    } else {
        match reaper.spec_lookup_track(media_track) {
            None => Err(ReaperError::UseAfterInvalidation),
            Some(state) => Ok(
                Track {
                    link: TrackLink::Loaded(media_track),
                    rea_project: match rea_project {
                        Some(p) => Some(p),
                        None => state.project,
                    },
                    guid: state.guid,
                },
            ),
        }
    }
}

impl LightTrack {
    /// A handle for the track at an address. The identity is read at once, so that two
    /// handles can be compared after the address has gone stale. The project may be left
    /// out; then the host is asked for it.
    pub fn new(reaper: &Reaper, media_track: MediaTrack, rea_project: Option<ReaProject>) -> (r:
        Result<LightTrack, ReaperError>)
        requires
            reaper.wf(),
        ensures
            match spec_new_track(*reaper, media_track, rea_project) {
                Ok(t) => r == Ok::<LightTrack, ReaperError>(
                    LightTrack { link: t.link, rea_project: t.rea_project, guid: t.guid },
                ),
                Err(e) => r == Err::<LightTrack, ReaperError>(e),
            },
    {
        match Track::new(reaper, media_track, rea_project) {
            Ok(t) => Ok(LightTrack { link: t.link, rea_project: t.rea_project, guid: t.guid }),
            Err(e) => Err(e),
        }
    }
}

impl From<LightTrack> for Track {
    fn from(light: LightTrack) -> (t: Track) {
        Track { link: light.link, rea_project: light.rea_project, guid: light.guid }
    }
}

impl FromSpecImpl<LightTrack> for Track {
    open spec fn obeys_from_spec() -> bool {
        true
    }

    open spec fn from_spec(light: LightTrack) -> Track {
        Track { link: light.link, rea_project: light.rea_project, guid: light.guid }
    }
}

impl From<Track> for LightTrack {
    fn from(heavy: Track) -> (t: LightTrack) {
        LightTrack { link: heavy.link, rea_project: heavy.rea_project, guid: heavy.guid }
    }
}

impl FromSpecImpl<Track> for LightTrack {
    open spec fn obeys_from_spec() -> bool {
        true
    }

    open spec fn from_spec(heavy: Track) -> LightTrack {
        LightTrack { link: heavy.link, rea_project: heavy.rea_project, guid: heavy.guid }
    }
}

impl Track {
    /// The project against which the handle is checked: its own if it has one, else the
    /// project in which the host knows its address.
    pub open spec fn spec_container(self, reaper: Reaper) -> Option<ReaProject> {
        match self.rea_project {
            Some(p) => Some(p),
            None => match self.link {
                TrackLink::Loaded(m) => reaper.spec_find_containing_project(m),
                _ => None,
            },
        }
    }

    /// The handle with its project filled in.
    pub open spec fn spec_with_container(self, reaper: Reaper) -> Track {
        Track { link: self.link, rea_project: self.spec_container(reaper), guid: self.guid }
    }

    /// Whether the handle holds an address that is live in its project.
    pub open spec fn spec_is_valid(self, reaper: Reaper) -> bool {
        &&& self.link matches TrackLink::Loaded(m)
        &&& self.spec_container(reaper) matches Some(p)
        &&& reaper.spec_project_is_available(p)
        &&& reaper.spec_track_is_live_in(p, m)
    }

    /// What is left of a link when a scan finds nothing: a handle that never held an
    /// address is as before, any other is unavailable.
    pub open spec fn spec_link_after_miss(self) -> TrackLink {
        if self.link is Unloaded {
            TrackLink::Unloaded
        } else {
            TrackLink::Unavailable
        }
    }

    /// The handle after its project's tracks were scanned for its identity.
    pub open spec fn spec_load_by_guid(self, reaper: Reaper) -> Track {
        let container = self.spec_container(reaper);
        Track {
            link: match container {
                Some(p) => match reaper.spec_find_track_by_guid(p, self.guid) {
                    Some(m) => TrackLink::Loaded(m),
                    None => self.spec_link_after_miss(),
                },
                None => self.spec_link_after_miss(),
            },
            rea_project: container,
            guid: self.guid,
        }
    }

    /// The handle after `resolve`, and what `resolve` returns. Where an entry point is
    /// missing nothing is looked at. An address that is live in the handle's project is
    /// kept. Else the project's tracks are scanned for the identity.
    pub open spec fn spec_resolve(self, reaper: Reaper) -> (Track, Result<MediaTrack, ReaperError>) {
        if !reaper.spec_can_resolve_tracks() {
            (self, Err(ReaperError::MissingHostFunction))
        } else if self.spec_is_valid(reaper) {
            (self.spec_with_container(reaper), Ok(self.link->Loaded_0))
        } else {
            let loaded = self.spec_load_by_guid(reaper);
            (
                loaded,
                match loaded.link {
                    TrackLink::Loaded(m) => Ok(m),
                    _ => Err(ReaperError::Unavailable),
                },
            )
        }
    }

    /// A handle for the track at an address. The identity is read at once, so that two
    /// handles can be compared after the address has gone stale. The project may be left
    /// out; then the host is asked for it, and an old host names none.
    pub fn new(reaper: &Reaper, media_track: MediaTrack, rea_project: Option<ReaProject>) -> (r:
        Result<Track, ReaperError>)
        requires
            reaper.wf(),
        ensures
            r == spec_new_track(*reaper, media_track, rea_project),
    {
        if !reaper.has(HostFunction::GetSetMediaTrackInfo) {
            return Err(ReaperError::MissingHostFunction);
        }
        match reaper.lookup_track(media_track) {
            None => Err(ReaperError::UseAfterInvalidation),
            Some(state) => Ok(
                Track {
                    link: TrackLink::Loaded(media_track),
                    rea_project: match rea_project {
                        Some(p) => Some(p),
                        None => get_media_track_rea_project(state),
                    },
                    guid: get_media_track_guid(state),
                },
            ),
        }
    }

    /// A handle for the track with an identity in a project. Nothing is looked up yet.
    pub fn from_guid(rea_project: ReaProject, guid: Guid) -> (t: Track)
        ensures
            t == (Track { link: TrackLink::Unloaded, rea_project: Some(rea_project), guid }),
    {
        Track { link: TrackLink::Unloaded, rea_project: Some(rea_project), guid }
    }

    pub fn get_guid(&self) -> (guid: &Guid)
        ensures
            *guid == self.guid,
    {
        &self.guid
    }

    /// The project in which the host knows the handle's address: the current project
    /// first, then the other open projects in tab order.
    pub fn find_containing_project(&self, reaper: &Reaper) -> (found: Option<ReaProject>)
        ensures
            found == match self.link {
                TrackLink::Loaded(m) => reaper.spec_find_containing_project(m),
                _ => None,
            },
    {
        match self.link {
            TrackLink::Loaded(m) => reaper.find_containing_project(m),
            _ => None,
        }
    }

    /// Fills in the project where the handle has none and holds an address.
    pub fn attempt_to_fill_project_if_necessary(&mut self, reaper: &Reaper)
        ensures
            *final(self) == old(self).spec_with_container(*reaper),
    {
        if self.rea_project.is_none() {
            self.rea_project = self.find_containing_project(reaper);
        }
    }

    /// Whether the address that the handle holds is live in its project. The project is
    /// filled in first.
    pub fn is_valid(&mut self, reaper: &Reaper) -> (b: bool)
        ensures
            *final(self) == old(self).spec_with_container(*reaper),
            b == old(self).spec_is_valid(*reaper),
    {
        self.attempt_to_fill_project_if_necessary(reaper);
        match (self.link, self.rea_project) {
            (TrackLink::Loaded(m), Some(p)) => {
                if reaper.project_is_available(p) {
                    reaper.track_is_live_in(p, m)
                } else {
                    false
                }
            },
            _ => false,
        }
    }

    /// Scans the tracks of the handle's project for its identity and keeps the address
    /// of the first match. Without a match, or without a project, a handle that held an
    /// address is left unavailable, and a handle that never held one stays unloaded.
    pub fn load_by_guid(&mut self, reaper: &Reaper) -> (found: bool)
        ensures
            *final(self) == old(self).spec_load_by_guid(*reaper),
            found == (final(self).link is Loaded),
    {
        self.attempt_to_fill_project_if_necessary(reaper);
        let found = match self.rea_project {
            Some(p) => reaper.find_track_by_guid(p, self.guid),
            None => None,
        };
        match found {
            Some(m) => {
                self.link = TrackLink::Loaded(m);
                true
            },
            None => {
                if let TrackLink::Unloaded = self.link {
                } else {
                    self.link = TrackLink::Unavailable;
                }
                false
            },
        }
    }

    /// The address of the handle's track as it is now. The address that the handle holds
    /// is returned only if the host knows it in the handle's project at this moment. Else
    /// the project's tracks are scanned for the handle's identity, by identity alone and
    /// never by position, and the first match is kept and returned. Without a match the
    /// call fails with `Unavailable` and a handle that held an address is left
    /// unavailable; a later call scans again.
    pub fn resolve(&mut self, reaper: &Reaper) -> (r: Result<MediaTrack, ReaperError>)
        requires
            reaper.wf(),
        ensures
            (*final(self), r) == old(self).spec_resolve(*reaper),
    {
        if !reaper.can_resolve_tracks() {
            return Err(ReaperError::MissingHostFunction);
        }
        if self.is_valid(reaper) {
            if let TrackLink::Loaded(m) = self.link {
                return Ok(m);
            }
        }
        if self.load_by_guid(reaper) {
            if let TrackLink::Loaded(m) = self.link {
                return Ok(m);
            }
        }
        Err(ReaperError::Unavailable)
    }

    /// A second handle with the same content.
    pub fn copy(&self) -> (t: Track)
        ensures
            t == *self,
    {
        Track { link: self.link, rea_project: self.rea_project, guid: self.guid }
    }

    /// What the host answers about the handle's track after `resolve` has found it.
    pub open spec fn spec_resolved_state(self, reaper: Reaper) -> Result<TrackState, ReaperError> {
        let (after, result) = self.spec_resolve(reaper);
        match result {
            Err(e) => Err(e),
            Ok(m) => match after.rea_project {
                Some(p) => match reaper.spec_track_state(p, m) {
                    Some(state) => Ok(state),
                    None => Err(ReaperError::UseAfterInvalidation),
                },
                None => Err(ReaperError::UseAfterInvalidation),
            },
        }
    }

    /// Finds the track and hands out its address together with what the host answers
    /// about it.
    pub fn resolve_state<'a>(&mut self, reaper: &'a Reaper) -> (r: Result<
        (MediaTrack, &'a TrackState),
        ReaperError,
    >)
        requires
            reaper.wf(),
        ensures
            *final(self) == old(self).spec_resolve(*reaper).0,
            match r {
                Ok((m, state)) => old(self).spec_resolve(*reaper).1 == Ok::<MediaTrack, ReaperError>(m)
                    && old(self).spec_resolved_state(*reaper) == Ok::<TrackState, ReaperError>(
                    *state,
                ) && state.wf(),
                Err(e) => old(self).spec_resolved_state(*reaper) == Err::<TrackState, ReaperError>(
                    e,
                ),
            },
    {
        match self.resolve(reaper) {
            Err(e) => Err(e),
            Ok(m) => match self.rea_project {
                Some(p) => match reaper.track_state(p, m) {
                    Some(state) => {
                        proof {
                            lemma_track_state_is_well_formed(*reaper, p, m);
                        }
                        Ok((m, state))
                    },
                    None => Err(ReaperError::UseAfterInvalidation),
                },
                None => Err(ReaperError::UseAfterInvalidation),
            },
        }
    }

    /// Asks the host to write the track's name.
    pub fn set_name(&mut self, reaper: &Reaper, name: &str) -> (r: Result<HostRequest, ReaperError>)
        requires
            reaper.wf(),
        ensures
            *final(self) == old(self).spec_resolve(*reaper).0,
            match old(self).spec_resolve(*reaper).1 {
                Ok(m) => r matches Ok(HostRequest::SetTrackName { track, name: n }) && track == m
                    && n@ == name@,
                Err(e) => r == Err::<HostRequest, ReaperError>(e),
            },
    {
        match self.resolve(reaper) {
            Ok(m) => Ok(HostRequest::SetTrackName { track: m, name: name.to_owned() }),
            Err(e) => Err(e),
        }
    }

    /// The name that is shown for a track: a fixed text for the master track, else the
    /// name that the host keeps.
    pub open spec fn spec_display_name(state: TrackState) -> Seq<char> {
        if spec_index_from_track_number(state.track_number) == -1 {
            "<Master track>"@
        } else {
            state.name@
        }
    }

    pub fn get_name(&mut self, reaper: &Reaper) -> (r: Result<String, ReaperError>)
        requires
            reaper.wf(),
        ensures
            *final(self) == old(self).spec_resolve(*reaper).0,
            match old(self).spec_resolved_state(*reaper) {
                Ok(state) => r matches Ok(n) && n@ == Track::spec_display_name(state),
                Err(e) => r == Err::<String, ReaperError>(e),
            },
    {
        match self.resolve_state(reaper) {
            Ok((_, state)) => {
                if index_from_track_number(state.track_number) == -1 {
                    Ok("<Master track>".to_owned())
                } else {
                    Ok(state.name.clone())
                }
            },
            Err(e) => Err(e),
        }
    }

    pub fn get_input_monitoring_mode(&mut self, reaper: &Reaper) -> (r: Result<
        InputMonitoringMode,
        ReaperError,
    >)
        requires
            reaper.wf(),
        ensures
            *final(self) == old(self).spec_resolve(*reaper).0,
            r == match old(self).spec_resolved_state(*reaper) {
                Ok(state) => Ok::<InputMonitoringMode, ReaperError>(state.input_monitoring_mode),
                Err(e) => Err::<InputMonitoringMode, ReaperError>(e),
            },
    {
        match self.resolve_state(reaper) {
            Ok((_, state)) => Ok(state.input_monitoring_mode),
            Err(e) => Err(e),
        }
    }

    /// Asks the host to change the track's input monitoring, this track alone. Without
    /// the entry point for it nothing is looked up and the handle stays as it is.
    pub fn set_input_monitoring_mode(&mut self, reaper: &Reaper, mode: InputMonitoringMode) -> (r:
        Result<HostRequest, ReaperError>)
        requires
            reaper.wf(),
        ensures
            !reaper.spec_has(HostFunction::CSurfOnInputMonitorChangeEx) ==> *final(self) == *old(self) && r == Err::<HostRequest, ReaperError>(ReaperError::MissingHostFunction),
            reaper.spec_has(HostFunction::CSurfOnInputMonitorChangeEx) ==> *final(self) == old(self).spec_resolve(*reaper).0 && r == match old(self).spec_resolve(*reaper).1 {
                Ok(m) => Ok::<HostRequest, ReaperError>(
                    HostRequest::SetInputMonitoringMode {
                        track: m,
                        mode: <i32 as vstd::std_specs::convert::FromSpec<
                            InputMonitoringMode,
                        >>::from_spec(mode),
                        allow_gang: false,
                    },
                ),
                Err(e) => Err::<HostRequest, ReaperError>(e),
            },
    {
        if !reaper.has(HostFunction::CSurfOnInputMonitorChangeEx) {
            return Err(ReaperError::MissingHostFunction);
        }
        match self.resolve(reaper) {
            Ok(m) => {
                let irecmon: i32 = i32::from(mode);
                Ok(HostRequest::SetInputMonitoringMode { track: m, mode: irecmon, allow_gang: false })
            },
            Err(e) => Err(e),
        }
    }

    pub fn get_recording_input(&mut self, reaper: &Reaper) -> (r: Result<
        RecordingInput,
        ReaperError,
    >)
        requires
            reaper.wf(),
        ensures
            *final(self) == old(self).spec_resolve(*reaper).0,
            r == match old(self).spec_resolved_state(*reaper) {
                Ok(state) => Ok::<RecordingInput, ReaperError>(
                    RecordingInput::spec_from_rec_input_index(state.rec_input_index),
                ),
                Err(e) => Err::<RecordingInput, ReaperError>(e),
            },
    {
        match self.resolve_state(reaper) {
            Ok((_, state)) => Ok(RecordingInput::from_rec_input_index(state.rec_input_index)),
            Err(e) => Err(e),
        }
    }

    /// Asks the host to write the track's recording input and then to tell the control
    /// surfaces about the track's input monitoring as it stands, which is how they learn
    /// of the new input. The two requests come in that order.
    pub fn set_recording_input(&mut self, reaper: &Reaper, input: MidiRecordingInput) -> (r:
        Result<(HostRequest, HostRequest), ReaperError>)
        requires
            reaper.wf(),
        ensures
            !reaper.spec_has(HostFunction::SetMediaTrackInfoValue) ==> *final(self) == *old(self)
                && r == Err::<(HostRequest, HostRequest), ReaperError>(
                ReaperError::MissingHostFunction,
            ),
            reaper.spec_has(HostFunction::SetMediaTrackInfoValue) ==> *final(self) == old(self).spec_resolve(*reaper).0 && r == match old(self).spec_resolved_state(*reaper) {
                Ok(state) => Ok::<(HostRequest, HostRequest), ReaperError>(
                    (
                        HostRequest::SetRecordingInput {
                            track: old(self).spec_resolve(*reaper).1->Ok_0,
                            rec_input_index: input.rec_input_index,
                        },
                        HostRequest::NotifyInputMonitor {
                            track: old(self).spec_resolve(*reaper).1->Ok_0,
                            rec_mon: <i32 as vstd::std_specs::convert::FromSpec<
                                InputMonitoringMode,
                            >>::from_spec(state.input_monitoring_mode),
                        },
                    ),
                ),
                Err(e) => Err::<(HostRequest, HostRequest), ReaperError>(e),
            },
    {
        if !reaper.has(HostFunction::SetMediaTrackInfoValue) {
            return Err(ReaperError::MissingHostFunction);
        }
        match self.resolve_state(reaper) {
            Ok((m, state)) => {
                let rec_mon: i32 = i32::from(state.input_monitoring_mode);
                Ok(
                    (
                        HostRequest::SetRecordingInput {
                            track: m,
                            rec_input_index: input.get_rec_input_index(),
                        },
                        HostRequest::NotifyInputMonitor { track: m, rec_mon },
                    ),
                )
            },
            Err(e) => Err(e),
        }
    }

    /// The track's position among the tracks of its project, counted from 0; -1 for the
    /// master track; 0 where the host does not find the track, which happens for a track
    /// of a project in another tab.
    pub fn get_index(&mut self, reaper: &Reaper) -> (r: Result<i32, ReaperError>)
        requires
            reaper.wf(),
        ensures
            *final(self) == old(self).spec_resolve(*reaper).0,
            r == match old(self).spec_resolved_state(*reaper) {
                Ok(state) => Ok::<i32, ReaperError>(
                    spec_index_from_track_number(state.track_number),
                ),
                Err(e) => Err::<i32, ReaperError>(e),
            },
    {
        match self.resolve_state(reaper) {
            Ok((_, state)) => Ok(index_from_track_number(state.track_number)),
            Err(e) => Err(e),
        }
    }

    pub fn is_master_track(&mut self, reaper: &Reaper) -> (r: Result<bool, ReaperError>)
        requires
            reaper.wf(),
        ensures
            *final(self) == old(self).spec_resolve(*reaper).0,
            r == match old(self).spec_resolved_state(*reaper) {
                Ok(state) => Ok::<bool, ReaperError>(
                    spec_index_from_track_number(state.track_number) == -1,
                ),
                Err(e) => Err::<bool, ReaperError>(e),
            },
    {
        match self.get_index(reaper) {
            Ok(index) => Ok(index == -1),
            Err(e) => Err(e),
        }
    }

    /// A send of this track by position. No lookup is made: the send is looked up when
    /// it is used.
    pub fn get_index_based_send_by_index(&self, index: u32) -> (send: TrackSend)
        ensures
            send.source_track == *self,
            send.index == index,
    {
        TrackSend::index_based(self.copy(), index)
    }

    /// The FX that the host's number names now, in the chain that the number names, as a
    /// handle keyed by the identity of that FX. `Ok(None)` where the chain is shorter.
    pub fn get_fx_by_query_index(&self, reaper: &Reaper, query_index: i32) -> (r: Result<
        Option<Fx>,
        ReaperError,
    >)
        requires
            reaper.wf(),
        ensures
            r == (FxChain {
                track: *self,
                is_input_fx: spec_index_from_query_index(query_index).1,
            }).spec_get_fx_by_index(*reaper, spec_index_from_query_index(query_index).0),
    {
        let (index, is_input_fx) = get_index_from_query_index(query_index);
        let fx_chain = if is_input_fx {
            self.get_input_fx_chain()
        } else {
            self.get_normal_fx_chain()
        };
        fx_chain.get_fx_by_index(reaper, index)
    }

    pub fn get_automation_mode(&mut self, reaper: &Reaper) -> (r: Result<
        AutomationMode,
        ReaperError,
    >)
        requires
            reaper.wf(),
        ensures
            (*final(self), r) == old(self).spec_get_automation_mode(*reaper),
    {
        if !reaper.has(HostFunction::GetTrackAutomationMode) {
            return Err(ReaperError::MissingHostFunction);
        }
        match self.resolve_state(reaper) {
            Ok((_, state)) => Ok(state.automation_mode),
            Err(e) => Err(e),
        }
    }

    /// The handle after `get_automation_mode`, and what it returns. Without the entry
    /// point for it nothing is looked up.
    pub open spec fn spec_get_automation_mode(self, reaper: Reaper) -> (
        Track,
        Result<AutomationMode, ReaperError>,
    ) {
        if !reaper.spec_has(HostFunction::GetTrackAutomationMode) {
            (self, Err(ReaperError::MissingHostFunction))
        } else {
            (
                self.spec_resolve(reaper).0,
                match self.spec_resolved_state(reaper) {
                    Ok(state) => Ok(state.automation_mode),
                    Err(e) => Err(e),
                },
            )
        }
    }

    /// The automation mode that is in force for the track: the global override where
    /// the host has one, else the track's own mode. With an override the track is not
    /// looked at.
    pub fn get_effective_automation_mode(&mut self, reaper: &Reaper) -> (r: Result<
        AutomationMode,
        ReaperError,
    >)
        requires
            reaper.wf(),
        ensures
            !reaper.spec_has(HostFunction::GetGlobalAutomationOverride) ==> *final(self) == *old(self) && r == Err::<AutomationMode, ReaperError>(ReaperError::MissingHostFunction),
            reaper.spec_has(HostFunction::GetGlobalAutomationOverride)
                && reaper.global_automation_override != AutomationMode::NoOverride ==> *final(self)
                == *old(self) && r == Ok::<AutomationMode, ReaperError>(
                reaper.global_automation_override,
            ),
            reaper.spec_has(HostFunction::GetGlobalAutomationOverride)
                && reaper.global_automation_override == AutomationMode::NoOverride ==> (
                *final(self),
                r,
            ) == old(self).spec_get_automation_mode(*reaper),
    {
        let automation_override = match reaper.get_global_automation_override() {
            Ok(mode) => mode,
            Err(e) => {
                return Err(e);
            },
        };
        if automation_override == AutomationMode::NoOverride {
            self.get_automation_mode(reaper)
        } else {
            Ok(automation_override)
        }
    }

    pub fn get_normal_fx_chain(&self) -> (chain: FxChain)
        ensures
            chain == (FxChain { track: *self, is_input_fx: false }),
    {
        FxChain::new(self.copy(), false)
    }

    pub fn get_input_fx_chain(&self) -> (chain: FxChain)
        ensures
            chain == (FxChain { track: *self, is_input_fx: true }),
    {
        FxChain::new(self.copy(), true)
    }

    /// The handle's project, with the project filled in from the host where the handle
    /// has none and holds an address.
    pub fn get_project_unchecked(&mut self, reaper: &Reaper) -> (project: Option<Project>)
        ensures
            *final(self) == old(self).spec_with_container(*reaper),
            project == match old(self).spec_container(*reaper) {
                Some(p) => Some(Project { rea_project: p }),
                None => None,
            },
    {
        self.attempt_to_fill_project_if_necessary(reaper);
        match self.rea_project {
            Some(p) => Some(Project::new(p)),
            None => None,
        }
    }

    /// The project of the track. A handle that has a project answers from it. A handle
    /// without one finds its track first, and its project with it.
    pub fn get_project(&mut self, reaper: &Reaper) -> (r: Result<Project, ReaperError>)
        requires
            reaper.wf(),
        ensures
            old(self).rea_project matches Some(p) ==> *final(self) == *old(self) && r == Ok::<
                Project,
                ReaperError,
            >(Project { rea_project: p }),
            old(self).rea_project is None ==> *final(self) == old(self).spec_resolve(*reaper).0
                && match old(self).spec_resolve(*reaper).1 {
                Ok(_) => final(self).rea_project matches Some(p) && r == Ok::<Project, ReaperError>(
                    Project { rea_project: p },
                ),
                Err(e) => r == Err::<Project, ReaperError>(e),
            },
    {
        if self.rea_project.is_none() {
            match self.resolve(reaper) {
                Ok(_) => {},
                Err(e) => {
                    return Err(e);
                },
            }
            proof {
                lemma_resolve_transitions(*old(self), *reaper);
            }
        }
        match self.get_project_unchecked(reaper) {
            Some(project) => Ok(project),
            None => Err(ReaperError::Unavailable),
        }
    }

    /// Same as [`Track::resolve`]: the address is checked before it is handed out.
    pub fn get_media_track(&mut self, reaper: &Reaper) -> (r: Result<MediaTrack, ReaperError>)
        requires
            reaper.wf(),
        ensures
            (*final(self), r) == old(self).spec_resolve(*reaper),
    {
        self.resolve(reaper)
    }

    /// Whether the track exists in the host now. `Ok(false)` where no track with the
    /// handle's identity was found.
    pub fn is_available(&mut self, reaper: &Reaper) -> (r: Result<bool, ReaperError>)
        requires
            reaper.wf(),
        ensures
            *final(self) == old(self).spec_resolve(*reaper).0,
            r == match old(self).spec_resolve(*reaper).1 {
                Ok(_) => Ok::<bool, ReaperError>(true),
                Err(ReaperError::Unavailable) => Ok::<bool, ReaperError>(false),
                Err(e) => Err::<bool, ReaperError>(e),
            },
    {
        match self.resolve(reaper) {
            Ok(_) => Ok(true),
            Err(ReaperError::Unavailable) => Ok(false),
            Err(e) => Err(e),
        }
    }
}

/// No two tracks of the project at position `i` share an identity.
pub open spec fn identities_are_unique(reaper: Reaper, i: int) -> bool {
    forall|a: int, b: int|
        0 <= a < b < reaper.projects@[i].tracks@.len() ==> (#[trigger] reaper.projects@[i].tracks@[a]).guid
            != (#[trigger] reaper.projects@[i].tracks@[b]).guid
}

/// No track of the project has the identity, or the project is not open.
pub open spec fn identity_is_absent(reaper: Reaper, project: ReaProject, guid: Guid) -> bool {
    reaper.spec_find_project(project) matches Some(i) ==> forall|k: int|
        0 <= k < reaper.projects@[i].tracks@.len() ==> (#[trigger] reaper.projects@[i].tracks@[k]).guid
            != guid
}

/// A track that still exists is found wherever it stands among the tracks of its
/// project. Take a handle with a project, a host in which the project is open and holds
/// a track with the handle's identity at some position `k`, and in which identities are
/// unique. If the handle holds an address, let it be the track's address or one that is
/// dead in the project. Then `resolve` succeeds with the address of the track at `k` and
/// the handle holds that address afterwards.
pub proof fn lemma_resolve_finds_track_at_any_position(
    track: Track,
    reaper: Reaper,
    project: ReaProject,
    i: int,
    k: int,
)
    requires
        reaper.spec_can_resolve_tracks(),
        track.rea_project == Some(project),
        reaper.spec_find_project(project) == Some(i),
        0 <= k < reaper.projects@[i].tracks@.len(),
        reaper.projects@[i].tracks@[k].guid == track.guid,
        identities_are_unique(reaper, i),
        track.link matches TrackLink::Loaded(m) ==> m == reaper.projects@[i].tracks@[k].media_track
            || !reaper.spec_track_is_live_in(project, m),
    ensures
        track.spec_resolve(reaper).1 == Ok::<MediaTrack, ReaperError>(
            reaper.projects@[i].tracks@[k].media_track,
        ),
        track.spec_resolve(reaper).0 == (Track {
            link: TrackLink::Loaded(reaper.projects@[i].tracks@[k].media_track),
            rea_project: Some(project),
            guid: track.guid,
        }),
{
    let tracks = reaper.projects@[i].tracks@;
    let target = tracks[k].media_track;
    assert(track_with_guid(track.guid)(tracks[k]));
    assert forall|j: int| 0 <= j < tracks.len() && j != k implies !track_with_guid(track.guid)(
        #[trigger] tracks[j],
    ) by {
        if j < k {
            assert(tracks[j].guid != tracks[k].guid);
        } else {
            assert(tracks[k].guid != tracks[j].guid);
        }
    }
    lemma_first_index_of_only_match(tracks, track_with_guid(track.guid), k);
    lemma_first_index(tracks, track_at(target));
    assert(track_at(target)(tracks[k]));
    assert(reaper.spec_track_is_live_in(project, target));
}

/// The address and the identity of each track, in the order of the tracks.
pub open spec fn track_identities(tracks: Seq<TrackState>) -> Seq<(MediaTrack, Guid)> {
    tracks.map_values(|t: TrackState| (t.media_track, t.guid))
}

/// Whether two runs of tracks hold the same tracks, each as often, in whatever order.
/// A track is the same by its address and its identity; its name, its number and the
/// like may differ.
pub open spec fn is_reordering(before: Seq<TrackState>, after: Seq<TrackState>) -> bool {
    track_identities(before).to_multiset() == track_identities(after).to_multiset()
}

/// Reordering the tracks of a project does not lose a handle its track. Take a handle
/// whose track stands at position `k` of its project in the host as it was, and a host
/// as it is later, in which the project holds the same tracks in another order. Then
/// `resolve` against the later host succeeds with the address of that same track.
pub proof fn lemma_resolve_survives_reordering(
    track: Track,
    before: Reaper,
    after: Reaper,
    project: ReaProject,
    i: int,
    j: int,
    k: int,
)
    requires
        after.spec_can_resolve_tracks(),
        track.rea_project == Some(project),
        before.spec_find_project(project) == Some(i),
        after.spec_find_project(project) == Some(j),
        0 <= i < before.projects@.len(),
        0 <= k < before.projects@[i].tracks@.len(),
        before.projects@[i].tracks@[k].guid == track.guid,
        track.link matches TrackLink::Loaded(m) ==> m == before.projects@[i].tracks@[k].media_track,
        is_reordering(before.projects@[i].tracks@, after.projects@[j].tracks@),
        identities_are_unique(after, j),
    ensures
        track.spec_resolve(after).1 == Ok::<MediaTrack, ReaperError>(
            before.projects@[i].tracks@[k].media_track,
        ),
{
    let was = track_identities(before.projects@[i].tracks@);
    let is = track_identities(after.projects@[j].tracks@);
    let same = was[k];
    assert(was.contains(same));
    was.to_multiset_ensures();
    is.to_multiset_ensures();
    assert(was.to_multiset().count(same) > 0);
    assert(is.to_multiset().count(same) > 0);
    assert(is.contains(same));
    let at = choose|at: int| 0 <= at < is.len() && is[at] == same;
    assert(after.projects@[j].tracks@[at].media_track == same.0);
    assert(after.projects@[j].tracks@[at].guid == same.1);
    lemma_resolve_finds_track_at_any_position(track, after, project, j, at);
}

/// A handle without a project finds its project through its address. Where the address
/// is live in some open project, `resolve` succeeds with the address.
pub proof fn lemma_resolve_discovers_container(track: Track, reaper: Reaper, m: MediaTrack, i: int)
    requires
        reaper.spec_can_resolve_tracks(),
        track.rea_project is None,
        track.link == TrackLink::Loaded(m),
        0 <= i < reaper.projects@.len(),
        reaper.spec_track_is_live_in(reaper.projects@[i].rea_project, m),
    ensures
        track.spec_resolve(reaper).1 == Ok::<MediaTrack, ReaperError>(m),
        track.spec_resolve(reaper).0.rea_project == reaper.spec_find_containing_project(m),
        track.spec_resolve(reaper).0.rea_project matches Some(p) && reaper.spec_track_is_live_in(
            p,
            m,
        ),
{
    let current = reaper.current_project;
    if !reaper.spec_track_is_live_in(current, m) {
        let pred = other_project_holding(reaper, current, m);
        assert(pred(reaper.projects@[i]));
        lemma_first_index(reaper.projects@, pred);
        let j = crate::search::first_index(reaper.projects@, pred)->0;
        assert(pred(reaper.projects@[j]));
    }
}

/// A track that was deleted is not found. Take a handle with a project and a host in
/// which no track of the project has the handle's identity, and in which the address
/// that the handle may hold is dead. Then `resolve` fails with `Unavailable`. A handle
/// that held an address is unavailable afterwards, one that never held one is unloaded
/// as before, and project and identity are as they were.
pub proof fn lemma_resolve_fails_for_deleted_track(track: Track, reaper: Reaper, project: ReaProject)
    requires
        reaper.spec_can_resolve_tracks(),
        track.rea_project == Some(project),
        identity_is_absent(reaper, project, track.guid),
        track.link matches TrackLink::Loaded(m) ==> !reaper.spec_track_is_live_in(project, m),
    ensures
        track.spec_resolve(reaper).1 == Err::<MediaTrack, ReaperError>(ReaperError::Unavailable),
        track.spec_resolve(reaper).0 == (Track {
            link: track.spec_link_after_miss(),
            rea_project: Some(project),
            guid: track.guid,
        }),
{
    match reaper.spec_find_project(project) {
        Some(i) => {
            lemma_first_index(reaper.projects@[i].tracks@, track_with_guid(track.guid));
        },
        None => {},
    }
}

/// A deleted track stays unavailable, call after call, and comes back when a track with
/// its identity shows up again. After a failed `resolve` against `first`, a `resolve`
/// against any host that lacks the identity fails again with `Unavailable`, and a
/// `resolve` against any host that has a track with the identity at some position `k`
/// of the project succeeds with that track's address.
pub proof fn lemma_deleted_track_stays_unavailable_until_it_returns(
    track: Track,
    first: Reaper,
    later: Reaper,
    returned: Reaper,
    project: ReaProject,
    i: int,
    k: int,
)
    requires
        first.spec_can_resolve_tracks(),
        later.spec_can_resolve_tracks(),
        returned.spec_can_resolve_tracks(),
        track.rea_project == Some(project),
        identity_is_absent(first, project, track.guid),
        identity_is_absent(later, project, track.guid),
        track.link matches TrackLink::Loaded(m) ==> !first.spec_track_is_live_in(project, m),
        returned.spec_find_project(project) == Some(i),
        0 <= k < returned.projects@[i].tracks@.len(),
        returned.projects@[i].tracks@[k].guid == track.guid,
        identities_are_unique(returned, i),
    ensures
        ({
            let failed = track.spec_resolve(first).0;
            let failed_again = failed.spec_resolve(later);
            &&& failed_again.1 == Err::<MediaTrack, ReaperError>(ReaperError::Unavailable)
            &&& failed_again.0 == failed
            &&& failed_again.0.spec_resolve(returned).1 == Ok::<MediaTrack, ReaperError>(
                returned.projects@[i].tracks@[k].media_track,
            )
        }),
{
    lemma_resolve_fails_for_deleted_track(track, first, project);
    let failed = track.spec_resolve(first).0;
    lemma_resolve_fails_for_deleted_track(failed, later, project);
    lemma_resolve_finds_track_at_any_position(failed, returned, project, i, k);
}

/// The scoped check is the stricter one: a track that is live in a project is live
/// somewhere.
pub proof fn lemma_scoped_validation_is_stricter(reaper: Reaper, project: ReaProject, track: MediaTrack)
    requires
        reaper.spec_track_is_live_in(project, track),
    ensures
        reaper.spec_track_is_live(track),
        reaper.spec_project_is_available(project),
{
    lemma_first_index(reaper.projects@, crate::host::project_at(project));
    let i = reaper.spec_find_project(project)->0;
    assert(crate::validator::project_holding(track)(reaper.projects@[i]));
    lemma_first_index(reaper.projects@, crate::validator::project_holding(track));
}

/// The states of a handle and the ways between them. A handle that holds an address
/// is loaded. `resolve` takes an unloaded handle to loaded or leaves it unloaded, and
/// takes a loaded or unavailable handle to loaded or unavailable: no handle goes from
/// unloaded to unavailable, and none goes back to unloaded. The identity never changes.
/// The call succeeds exactly if the handle is loaded afterwards and no entry point was
/// missing; the address that it returns is the one that the handle holds; and every
/// failure but a missing entry point is `Unavailable`.
pub proof fn lemma_resolve_transitions(track: Track, reaper: Reaper)
    ensures
        ({
            let (after, result) = track.spec_resolve(reaper);
            &&& after.guid == track.guid
            &&& after.link is Unloaded ==> track.link is Unloaded
            &&& after.link is Unavailable ==> !(track.link is Unloaded)
            &&& !reaper.spec_can_resolve_tracks() ==> after == track && result == Err::<
                MediaTrack,
                ReaperError,
            >(ReaperError::MissingHostFunction)
            &&& reaper.spec_can_resolve_tracks() ==> (result matches Ok(m) ==> after.link
                == TrackLink::Loaded(m))
            &&& reaper.spec_can_resolve_tracks() ==> (result is Err ==> result == Err::<
                MediaTrack,
                ReaperError,
            >(ReaperError::Unavailable) && !(after.link is Loaded))
            &&& result matches Ok(m) ==> after.rea_project matches Some(p)
                && reaper.spec_find_project(p) is Some
        }),
{
    if reaper.spec_can_resolve_tracks() && !track.spec_is_valid(reaper) {
        let loaded = track.spec_load_by_guid(reaper);
        if loaded.link is Loaded {
        }
    }
}

/// The position, counted from 0, that a track number of the host stands for: -1 and 0
/// stay as they are, every other number is lowered by one.
pub open spec fn spec_index_from_track_number(ip_track_number: i32) -> i32 {
    if ip_track_number == 0 {
        0
    } else if ip_track_number == -1 {
        -1i32
    } else {
        (ip_track_number - 1) as i32
    }
}

#[verifier::when_used_as_spec(spec_index_from_track_number)]
pub fn index_from_track_number(ip_track_number: i32) -> (index: i32)
    requires
        ip_track_number > i32::MIN,
    ensures
        index == spec_index_from_track_number(ip_track_number),
{
    if ip_track_number == 0 {
        return 0;
    }
    if ip_track_number == -1 {
        return -1;
    }
    ip_track_number - 1
}

/// In a well-formed host every answer about a track is well-formed.
pub proof fn lemma_track_state_is_well_formed(reaper: Reaper, project: ReaProject, track: MediaTrack)
    requires
        reaper.wf(),
        reaper.spec_track_state(project, track) is Some,
    ensures
        reaper.spec_track_state(project, track)->0.wf(),
{
    lemma_first_index(reaper.projects@, crate::host::project_at(project));
    let i = reaper.spec_find_project(project)->0;
    assert(reaper.projects@[i].wf());
    lemma_first_index(reaper.projects@[i].tracks@, track_at(track));
}

/// Whenever `resolve` succeeds, the host has an answer about the track at the address
/// that it returns, in the project that the handle holds afterwards.
pub proof fn lemma_resolved_track_has_state(track: Track, reaper: Reaper)
    requires
        track.spec_resolve(reaper).1 is Ok,
    ensures
        track.spec_resolved_state(reaper) is Ok,
{
    let (after, result) = track.spec_resolve(reaper);
    let m = result->Ok_0;
    let p = after.rea_project->0;
    if track.spec_is_valid(reaper) {
        lemma_first_index(reaper.projects@, crate::host::project_at(p));
    } else {
        lemma_first_index(reaper.projects@, crate::host::project_at(p));
        let i = reaper.spec_find_project(p)->0;
        lemma_first_index(reaper.projects@[i].tracks@, track_with_guid(track.guid));
        let j = reaper.projects@[i].spec_find_track_by_guid(track.guid)->0;
        lemma_first_index(reaper.projects@[i].tracks@, track_at(m));
        assert(track_at(m)(reaper.projects@[i].tracks@[j]));
    }
}

/// The identity that the host reports for a track.
pub fn get_media_track_guid(state: &TrackState) -> (guid: Guid)
    ensures
        guid == state.guid,
{
    state.guid
}

/// The project that the host reports for a track. Old hosts report none, and the
/// project is then found by asking each open project.
pub fn get_media_track_rea_project(state: &TrackState) -> (project: Option<ReaProject>)
    ensures
        project == state.project,
{
    state.project
}

} // verus!
