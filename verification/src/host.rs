//! What the host answers about its projects, tracks and sources at one point in time.

use crate::automation_mode::AutomationMode;
use crate::guid::Guid;
use crate::low_level::{MediaTrack, PcmSource, ReaProject};
use crate::misc_enums::InputMonitoringMode;
use crate::search::{first_index, first_index_from};
use vstd::prelude::*;

verus! {

/// What the host knows of one FX in a chain.
#[derive(Clone, Copy, Debug, PartialEq, Eq, Structural)]
pub struct FxState {
    pub guid: Guid,
    pub window_has_focus: bool,
    pub parameter_count: u32,
}

/// What the host answers about one track.
#[derive(Clone, Debug)]
pub struct TrackState {
    pub media_track: MediaTrack,
    pub guid: Guid,
    pub name: String,
    /// The project that the host names as the track's own. Old hosts name none.
    pub project: Option<ReaProject>,
    /// The host's track number: -1 for the master track, 0 where the host does not find
    /// the track, else the position counted from 1.
    pub track_number: i32,
    pub input_monitoring_mode: InputMonitoringMode,
    pub rec_input_index: i32,
    pub automation_mode: AutomationMode,
    pub normal_fx: Vec<FxState>,
    pub input_fx: Vec<FxState>,
}

/// What the host answers about one open project: its master track and its tracks in
/// their present order.
#[derive(Clone, Debug)]
pub struct ProjectState {
    pub rea_project: ReaProject,
    pub master_track: TrackState,
    pub tracks: Vec<TrackState>,
}

/// What the host answers about one PCM source.
#[derive(Clone, Debug)]
pub struct SourceState {
    pub source: PcmSource,
    /// The project that uses the source, if one does.
    pub project: Option<ReaProject>,
    pub parent: Option<PcmSource>,
    pub file_name: Option<String>,
    pub source_type: String,
    /// The source's state as the host writes it: records divided by NUL bytes.
    pub state: Vec<u8>,
    /// Identity of the pooled MIDI data that the source plays, if it plays pooled MIDI.
    pub pooled_midi_id: Option<Guid>,
}

/// Tracks at this address.
pub open spec fn track_at(track: MediaTrack) -> spec_fn(TrackState) -> bool {
    |s: TrackState| s.media_track == track
}

/// Tracks with this identity.
pub open spec fn track_with_guid(guid: Guid) -> spec_fn(TrackState) -> bool {
    |s: TrackState| s.guid == guid
}

/// Projects at this address.
pub open spec fn project_at(project: ReaProject) -> spec_fn(ProjectState) -> bool {
    |s: ProjectState| s.rea_project == project
}

/// Sources at this address.
pub open spec fn source_at(source: PcmSource) -> spec_fn(SourceState) -> bool {
    |s: SourceState| s.source == source
}

impl TrackState {
    /// The track number is one from which a position can be computed: any number but
    /// the lowest that 32 bits hold.
    pub open spec fn wf(&self) -> bool {
        self.track_number > i32::MIN
    }

    /// The chain that is asked for.
    pub open spec fn spec_fx_chain(&self, is_input_fx: bool) -> Seq<FxState> {
        if is_input_fx {
            self.input_fx@
        } else {
            self.normal_fx@
        }
    }

    pub fn fx_chain(&self, is_input_fx: bool) -> (chain: &Vec<FxState>)
        ensures
            chain@ == self.spec_fx_chain(is_input_fx),
    {
        if is_input_fx {
            &self.input_fx
        } else {
            &self.normal_fx
        }
    }
}

impl ProjectState {
    pub open spec fn wf(&self) -> bool {
        &&& self.master_track.wf()
        &&& forall|i: int| 0 <= i < self.tracks@.len() ==> (#[trigger] self.tracks@[i]).wf()
    }

    /// Position of the first track at the address, the master track left aside.
    pub open spec fn spec_find_track_by_pointer(&self, track: MediaTrack) -> Option<int> {
        first_index(self.tracks@, track_at(track))
    }

    /// Position of the first track with the identity, the master track left aside.
    pub open spec fn spec_find_track_by_guid(&self, guid: Guid) -> Option<int> {
        first_index(self.tracks@, track_with_guid(guid))
    }

    /// Whether the address is that of the master track or of a track of the project.
    pub open spec fn spec_holds_track(&self, track: MediaTrack) -> bool {
        self.master_track.media_track == track || self.spec_find_track_by_pointer(track) is Some
    }

    /// What the host answers about the track at the address: the master track if it is
    /// there, else the first track there.
    pub open spec fn spec_track_state(&self, track: MediaTrack) -> Option<TrackState> {
        if self.master_track.media_track == track {
            Some(self.master_track)
        } else {
            match self.spec_find_track_by_pointer(track) {
                Some(i) => Some(self.tracks@[i]),
                None => None,
            }
        }
    }

    pub fn find_track_by_pointer(&self, track: MediaTrack) -> (found: Option<usize>)
        ensures
            found matches Some(i) ==> self.spec_find_track_by_pointer(track) == Some(i as int) && i
                < self.tracks@.len(),
            found is None ==> self.spec_find_track_by_pointer(track) is None,
    {
        let mut i: usize = 0;
        while i < self.tracks.len()
            invariant
                i <= self.tracks@.len(),
                first_index_from(self.tracks@, track_at(track), i as int) == first_index(
                    self.tracks@,
                    track_at(track),
                ),
            decreases self.tracks@.len() - i,
        {
            if self.tracks[i].media_track == track {
                return Some(i);
            }
            i = i + 1;
        }
        None
    }

    pub fn find_track_by_guid(&self, guid: Guid) -> (found: Option<usize>)
        ensures
            found matches Some(i) ==> self.spec_find_track_by_guid(guid) == Some(i as int) && i
                < self.tracks@.len(),
            found is None ==> self.spec_find_track_by_guid(guid) is None,
    {
        let mut i: usize = 0;
        while i < self.tracks.len()
            invariant
                i <= self.tracks@.len(),
                first_index_from(self.tracks@, track_with_guid(guid), i as int) == first_index(
                    self.tracks@,
                    track_with_guid(guid),
                ),
            decreases self.tracks@.len() - i,
        {
            if self.tracks[i].guid == guid {
                return Some(i);
            }
            i = i + 1;
        }
        None
    }

    #[verifier::when_used_as_spec(spec_holds_track)]
    pub fn holds_track(&self, track: MediaTrack) -> (b: bool)
        ensures
            b == self.spec_holds_track(track),
    {
        if self.master_track.media_track == track {
            true
        } else {
            self.find_track_by_pointer(track).is_some()
        }
    }

    pub fn track_state(&self, track: MediaTrack) -> (state: Option<&TrackState>)
        ensures
            state matches Some(s) ==> self.spec_track_state(track) == Some(*s),
            state is None ==> self.spec_track_state(track) is None,
    {
        if self.master_track.media_track == track {
            Some(&self.master_track)
        } else {
            match self.find_track_by_pointer(track) {
                Some(i) => Some(&self.tracks[i]),
                None => None,
            }
        }
    }
}

} // verus!
