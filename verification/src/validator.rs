//! Checking addresses of tracks against the host, anywhere or within one project.

use crate::error::ReaperError;
use crate::guid::Guid;
use crate::host::{project_at, ProjectState, TrackState};
use crate::low_level::{HostFunction, MediaTrack, ReaProject};
use crate::reaper::Reaper;
use crate::search::{first_index, first_index_from};
use vstd::prelude::*;

verus! {

/// Projects that hold the track, as master track or as one of their tracks.
pub open spec fn project_holding(track: MediaTrack) -> spec_fn(ProjectState) -> bool {
    |s: ProjectState| s.spec_holds_track(track)
}

/// Projects other than `current` in which the track is live.
pub open spec fn other_project_holding(reaper: Reaper, current: ReaProject, track: MediaTrack)
    -> spec_fn(ProjectState) -> bool {
    |s: ProjectState| s.rea_project != current && reaper.spec_track_is_live_in(s.rea_project, track)
}

impl Reaper {
    /// Position of the first open project at the address.
    pub open spec fn spec_find_project(&self, project: ReaProject) -> Option<int> {
        first_index(self.projects@, project_at(project))
    }

    /// Whether the project is open.
    pub open spec fn spec_project_is_available(&self, project: ReaProject) -> bool {
        self.spec_find_project(project) is Some
    }

    /// Whether the project is open and the address is that of one of its tracks, the
    /// master track included.
    pub open spec fn spec_track_is_live_in(&self, project: ReaProject, track: MediaTrack) -> bool {
        match self.spec_find_project(project) {
            Some(i) => self.projects@[i].spec_holds_track(track),
            None => false,
        }
    }

    /// Whether the address is that of a track of any open project.
    pub open spec fn spec_track_is_live(&self, track: MediaTrack) -> bool {
        first_index(self.projects@, project_holding(track)) is Some
    }

    /// The project in which the track is live: the current one if it is live there, else
    /// the first other open project, in tab order, in which it is.
    pub open spec fn spec_find_containing_project(&self, track: MediaTrack) -> Option<
        ReaProject,
    > {
        if self.spec_track_is_live_in(self.current_project, track) {
            Some(self.current_project)
        } else {
            match first_index(
                self.projects@,
                other_project_holding(*self, self.current_project, track),
            ) {
                Some(i) => Some(self.projects@[i].rea_project),
                None => None,
            }
        }
    }

    /// The address of the first track of the project, in the project's order, that has
    /// the identity. The master track is not looked at.
    pub open spec fn spec_find_track_by_guid(&self, project: ReaProject, guid: Guid) -> Option<
        MediaTrack,
    > {
        match self.spec_find_project(project) {
            Some(i) => match self.projects@[i].spec_find_track_by_guid(guid) {
                Some(j) => Some(self.projects@[i].tracks@[j].media_track),
                None => None,
            },
            None => None,
        }
    }

    /// What the host answers about the track at the address in the project.
    pub open spec fn spec_track_state(&self, project: ReaProject, track: MediaTrack) -> Option<
        TrackState,
    > {
        match self.spec_find_project(project) {
            Some(i) => self.projects@[i].spec_track_state(track),
            None => None,
        }
    }

    /// What the host answers about the track at the address, whichever project it is in:
    /// the answer of the first open project, in tab order, that holds it.
    pub open spec fn spec_lookup_track(&self, track: MediaTrack) -> Option<TrackState> {
        match first_index(self.projects@, project_holding(track)) {
            Some(i) => self.projects@[i].spec_track_state(track),
            None => None,
        }
    }

    /// Whether the host handed out every entry point that finding a track goes through.
    pub open spec fn spec_can_resolve_tracks(&self) -> bool {
        &&& self.spec_has(HostFunction::ValidatePtr2)
        &&& self.spec_has(HostFunction::EnumProjects)
        &&& self.spec_has(HostFunction::GetTrack)
        &&& self.spec_has(HostFunction::GetSetMediaTrackInfo)
    }

    #[verifier::when_used_as_spec(spec_can_resolve_tracks)]
    pub fn can_resolve_tracks(&self) -> (b: bool)
        requires
            self.wf(),
        ensures
            b == self.spec_can_resolve_tracks(),
    {
        self.has(HostFunction::ValidatePtr2) && self.has(HostFunction::EnumProjects) && self.has(
            HostFunction::GetTrack,
        ) && self.has(HostFunction::GetSetMediaTrackInfo)
    }

    pub fn find_project(&self, project: ReaProject) -> (found: Option<usize>)
        ensures
            found matches Some(i) ==> self.spec_find_project(project) == Some(i as int) && i
                < self.projects@.len(),
            found is None ==> self.spec_find_project(project) is None,
    {
        let mut i: usize = 0;
        while i < self.projects.len()
            invariant
                i <= self.projects@.len(),
                first_index_from(self.projects@, project_at(project), i as int) == first_index(
                    self.projects@,
                    project_at(project),
                ),
            decreases self.projects@.len() - i,
        {
            if self.projects[i].rea_project == project {
                return Some(i);
            }
            i = i + 1;
        }
        None
    }

    #[verifier::when_used_as_spec(spec_project_is_available)]
    pub fn project_is_available(&self, project: ReaProject) -> (b: bool)
        ensures
            b == self.spec_project_is_available(project),
    {
        self.find_project(project).is_some()
    }

    #[verifier::when_used_as_spec(spec_track_is_live_in)]
    pub fn track_is_live_in(&self, project: ReaProject, track: MediaTrack) -> (b: bool)
        ensures
            b == self.spec_track_is_live_in(project, track),
    {
        match self.find_project(project) {
            Some(i) => self.projects[i].holds_track(track),
            None => false,
        }
    }

    /// Validation of a track pointer in whatever project it may be. Use the scoped
    /// form wherever an answer from another project would mislead.
    #[verifier::loop_isolation(false)]
    pub fn validate_ptr(&self, track: MediaTrack) -> (r: Result<bool, ReaperError>)
        requires
            self.wf(),
        ensures
            r == if self.spec_has(HostFunction::ValidatePtr2) {
                Ok::<bool, ReaperError>(self.spec_track_is_live(track))
            } else {
                Err::<bool, ReaperError>(ReaperError::MissingHostFunction)
            },
    {
        if !self.has(HostFunction::ValidatePtr2) {
            return Err(ReaperError::MissingHostFunction);
        }
        let mut i: usize = 0;
        while i < self.projects.len()
            invariant
                i <= self.projects@.len(),
                first_index_from(self.projects@, project_holding(track), i as int) == first_index(
                    self.projects@,
                    project_holding(track),
                ),
            decreases self.projects@.len() - i,
        {
            assert(project_holding(track)(self.projects@[i as int])
                == self.projects@[i as int].spec_holds_track(track));
            if self.projects[i].holds_track(track) {
                return Ok(true);
            }
            i = i + 1;
        }
        Ok(false)
    }

    /// Scoped validation of a track pointer, as the host's `ValidatePtr2` gives it.
    pub fn validate_ptr_2(&self, project: ReaProject, track: MediaTrack) -> (r: Result<
        bool,
        ReaperError,
    >)
        requires
            self.wf(),
        ensures
            r == if self.spec_has(HostFunction::ValidatePtr2) {
                Ok::<bool, ReaperError>(self.spec_track_is_live_in(project, track))
            } else {
                Err::<bool, ReaperError>(ReaperError::MissingHostFunction)
            },
    {
        if !self.has(HostFunction::ValidatePtr2) {
            return Err(ReaperError::MissingHostFunction);
        }
        Ok(self.track_is_live_in(project, track))
    }

    pub fn find_containing_project(&self, track: MediaTrack) -> (found: Option<ReaProject>)
        ensures
            found == self.spec_find_containing_project(track),
    {
        let current = self.current_project;
        if self.track_is_live_in(current, track) {
            return Some(current);
        }
        let ghost pred = other_project_holding(*self, current, track);
        let mut i: usize = 0;
        while i < self.projects.len()
            invariant
                i <= self.projects@.len(),
                current == self.current_project,
                !self.spec_track_is_live_in(current, track),
                pred == other_project_holding(*self, current, track),
                first_index_from(self.projects@, pred, i as int) == first_index(self.projects@, pred),
            decreases self.projects@.len() - i,
        {
            let candidate = self.projects[i].rea_project;
            assert(pred(self.projects@[i as int]) == (candidate != current
                && self.spec_track_is_live_in(candidate, track)));
            if candidate != current && self.track_is_live_in(candidate, track) {
                return Some(candidate);
            }
            i = i + 1;
        }
        None
    }

    pub fn find_track_by_guid(&self, project: ReaProject, guid: Guid) -> (found: Option<
        MediaTrack,
    >)
        ensures
            found == self.spec_find_track_by_guid(project, guid),
    {
        match self.find_project(project) {
            Some(i) => match self.projects[i].find_track_by_guid(guid) {
                Some(j) => Some(self.projects[i].tracks[j].media_track),
                None => None,
            },
            None => None,
        }
    }

    pub fn track_state(&self, project: ReaProject, track: MediaTrack) -> (state: Option<
        &TrackState,
    >)
        ensures
            state matches Some(s) ==> self.spec_track_state(project, track) == Some(*s),
            state is None ==> self.spec_track_state(project, track) is None,
    {
        match self.find_project(project) {
            Some(i) => self.projects[i].track_state(track),
            None => None,
        }
    }

    pub fn lookup_track(&self, track: MediaTrack) -> (state: Option<&TrackState>)
        ensures
            state matches Some(s) ==> self.spec_lookup_track(track) == Some(*s),
            state is None ==> self.spec_lookup_track(track) is None,
    {
        let mut i: usize = 0;
        while i < self.projects.len()
            invariant
                i <= self.projects@.len(),
                first_index_from(self.projects@, project_holding(track), i as int) == first_index(
                    self.projects@,
                    project_holding(track),
                ),
            decreases self.projects@.len() - i,
        {
            assert(project_holding(track)(self.projects@[i as int])
                == self.projects@[i as int].spec_holds_track(track));
            if self.projects[i].holds_track(track) {
                return self.projects[i].track_state(track);
            }
            i = i + 1;
        }
        None
    }
}

} // verus!
