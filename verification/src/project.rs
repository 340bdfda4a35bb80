//! Projects of the host.

use crate::error::ReaperError;
use crate::low_level::{HostFunction, ReaProject};
use crate::misc_enums::TrackRef;
use crate::reaper::Reaper;
use crate::track::{Track, TrackLink};
use vstd::prelude::*;

verus! {

/// A project of the host, by its address. Whether it is still open is asked each time.
#[derive(Clone, Copy, Debug, PartialEq, Eq, Structural)]
pub struct Project {
    pub rea_project: ReaProject,
}

impl Project {
    pub fn new(rea_project: ReaProject) -> (p: Project)
        ensures
            p.rea_project == rea_project,
    {
        Project { rea_project }
    }

    pub fn get_rea_project(&self) -> (p: ReaProject)
        ensures
            p == self.rea_project,
    {
        self.rea_project
    }

    /// Whether the project is open in the host.
    pub fn is_available(&self, reaper: &Reaper) -> (r: Result<bool, ReaperError>)
        requires
            reaper.wf(),
        ensures
            r == if reaper.spec_has(HostFunction::ValidatePtr2) {
                Ok::<bool, ReaperError>(reaper.spec_project_is_available(self.rea_project))
            } else {
                Err::<bool, ReaperError>(ReaperError::MissingHostFunction)
            },
    {
        if !reaper.has(HostFunction::ValidatePtr2) {
            return Err(ReaperError::MissingHostFunction);
        }
        Ok(reaper.project_is_available(self.rea_project))
    }

    /// The handle that stands for the track which `track_ref` names in this project now.
    pub open spec fn spec_get_track_by_ref(&self, reaper: Reaper, track_ref: TrackRef) -> Option<
        Track,
    > {
        match reaper.spec_find_project(self.rea_project) {
            None => None,
            Some(i) => {
                let state = reaper.projects@[i];
                match track_ref {
                    TrackRef::MasterTrack => Some(
                        Track {
                            link: TrackLink::Loaded(state.master_track.media_track),
                            rea_project: Some(self.rea_project),
                            guid: state.master_track.guid,
                        },
                    ),
                    TrackRef::NormalTrack(idx) => if idx < state.tracks@.len() {
                        Some(
                            Track {
                                link: TrackLink::Loaded(state.tracks@[idx as int].media_track),
                                rea_project: Some(self.rea_project),
                                guid: state.tracks@[idx as int].guid,
                            },
                        )
                    } else {
                        None
                    },
                }
            },
        }
    }

    /// Number of tracks of the project, the master track left aside; zero where the
    /// project is not open.
    pub open spec fn spec_get_track_count(&self, reaper: Reaper) -> nat {
        match reaper.spec_find_project(self.rea_project) {
            None => 0,
            Some(i) => reaper.projects@[i].tracks@.len(),
        }
    }

    pub fn get_track_count(&self, reaper: &Reaper) -> (n: usize)
        ensures
            n == self.spec_get_track_count(*reaper),
    {
        match reaper.find_project(self.rea_project) {
            None => 0,
            Some(i) => reaper.projects[i].tracks.len(),
        }
    }

    /// A handle for the track that the position names now. The handle is keyed by the
    /// track's identity from then on: a position says nothing once tracks move.
    pub fn get_track_by_ref(&self, reaper: &Reaper, track_ref: TrackRef) -> (t: Option<Track>)
        ensures
            t == self.spec_get_track_by_ref(*reaper, track_ref),
    {
        match reaper.find_project(self.rea_project) {
            None => None,
            Some(i) => {
                let state = &reaper.projects[i];
                match track_ref {
                    TrackRef::MasterTrack => Some(
                        Track {
                            link: TrackLink::Loaded(state.master_track.media_track),
                            rea_project: Some(self.rea_project),
                            guid: state.master_track.guid,
                        },
                    ),
                    TrackRef::NormalTrack(idx) => if (idx as usize) < state.tracks.len() {
                        Some(
                            Track {
                                link: TrackLink::Loaded(state.tracks[idx as usize].media_track),
                                rea_project: Some(self.rea_project),
                                guid: state.tracks[idx as usize].guid,
                            },
                        )
                    } else {
                        None
                    },
                }
            },
        }
    }

    pub fn get_master_track(&self, reaper: &Reaper) -> (t: Option<Track>)
        ensures
            t == self.spec_get_track_by_ref(*reaper, TrackRef::MasterTrack),
    {
        self.get_track_by_ref(reaper, TrackRef::MasterTrack)
    }

    pub fn get_track_by_index(&self, reaper: &Reaper, idx: u32) -> (t: Option<Track>)
        ensures
            t == self.spec_get_track_by_ref(*reaper, TrackRef::NormalTrack(idx)),
    {
        self.get_track_by_ref(reaper, TrackRef::NormalTrack(idx))
    }
}

} // verus!
