//! The host as it is seen at one point in time, and the operations that start from it.

use crate::action::{Action, CommandId, Section, SectionId};
use crate::automation_mode::AutomationMode;
use crate::error::ReaperError;
use crate::fx::{spec_index_from_query_index, Fx, FxChain, FxParameter};
use crate::guid::Guid;
use crate::host::{ProjectState, SourceState};
use crate::low_level::{FunctionTable, HostFunction, ReaProject};
use crate::midi_device::{
    spec_present_ids, MidiInputDevice, MidiInputDeviceId, MidiOutputDevice,
    MidiOutputDeviceId,
};
use crate::misc_enums::{StuffMidiMessageTarget, TrackFxRef, TrackRef};
use crate::project::Project;
use crate::request::{HostRequest, COMMAND_NEW_PROJECT_TAB};
use crate::search::{first_index, first_index_from};
use helgoboss_midi::{RawShortMessage, ShortMessage, U7};
use vstd::prelude::*;

verus! {

/// A short MIDI message as `helgoboss_midi` keeps it. Nothing is known of a value here
/// but that it is one.
#[verifier::external_type_specification]
#[verifier::external_body]
pub struct ExRawShortMessage(helgoboss_midi::RawShortMessage);

/// `ShortMessage::to_bytes` of `helgoboss_midi`: the status byte and the two data bytes
/// of the message. Nothing is claimed of them.
#[verifier::external_body]
fn short_message_to_bytes(message: &RawShortMessage) -> (bytes: (u8, U7, U7)) {
    message.to_bytes()
}

/// `U7::get` of `helgoboss_midi`: the number that the value holds. The type holds
/// numbers from 0 to 127 only.
#[verifier::external_body]
fn u7_get(value: U7) -> (number: u8)
    ensures
        number <= 127,
{
    value.get()
}

/// The place where a process keeps its one [`Reaper`]. It starts empty, is filled once
/// and is never emptied.
pub struct ReaperSlot {
    pub instance: Option<Reaper>,
}

/// What the host names as the FX parameter that was touched last.
#[derive(Clone, Copy, Debug, PartialEq, Eq, Structural)]
pub enum GetLastTouchedFxResult {
    TrackFx { track_ref: TrackRef, fx_location: TrackFxRef, param_index: u32 },
    TakeFx { track_index: u32, take_index: u32, fx_index: u32, param_index: u32 },
}

/// What the host names as the FX whose window has the focus.
#[derive(Clone, Copy, Debug, PartialEq, Eq, Structural)]
pub enum GetFocusedFxResult {
    TrackFx { track_ref: TrackRef, fx_location: TrackFxRef },
    TakeFx { track_index: u32, take_index: u32, fx_index: u32 },
}

/// The host as it answers at one point in time: the entry points that it handed out at
/// start-up and the objects that are live now. Nothing in it outlives the moment. Every
/// operation that reads a pointer looks it up here first.
pub struct Reaper {
    pub functions: FunctionTable,
    /// The project of the tab that is shown.
    pub current_project: ReaProject,
    /// The open projects in tab order.
    pub projects: Vec<ProjectState>,
    /// The PCM sources that are live.
    pub sources: Vec<SourceState>,
    pub global_automation_override: AutomationMode,
    pub last_touched_fx: Option<GetLastTouchedFxResult>,
    pub focused_fx: Option<GetFocusedFxResult>,
    pub project_in_load_save: Option<ReaProject>,
    /// Address of the host's main window.
    pub main_hwnd: usize,
    /// The host's version as it prints it.
    pub version: String,
    /// Highest number of MIDI input devices that the host can list.
    pub max_midi_inputs: u32,
    /// Highest number of MIDI output devices that the host can list.
    pub max_midi_outputs: u32,
    /// For each device number whether the host lists a MIDI input device under it.
    pub midi_inputs_present: Vec<bool>,
    /// For each device number whether the host lists a MIDI output device under it.
    pub midi_outputs_present: Vec<bool>,
}

/// The FX that `location` names on the track that `track_ref` names in a project, if
/// there is one and its window has the focus.
pub open spec fn spec_focused_fx_in(
    reaper: Reaper,
    project: ReaProject,
    track_ref: TrackRef,
    location: TrackFxRef,
) -> Option<Fx> {
    match (Project { rea_project: project }).spec_get_track_by_ref(reaper, track_ref) {
        None => None,
        Some(track) => match spec_fx_at(reaper, track, location) {
            Ok(Some(fx)) => if fx.spec_window_has_focus(reaper) == Ok::<bool, ReaperError>(true) {
                Some(fx)
            } else {
                None
            },
            _ => None,
        },
    }
}

/// The FX that `location` names on a track now.
pub open spec fn spec_fx_at(reaper: Reaper, track: crate::track::Track, location: TrackFxRef)
    -> Result<Option<Fx>, ReaperError> {
    let query_index = location.spec_to_raw();
    (FxChain {
        track,
        is_input_fx: spec_index_from_query_index(query_index).1,
    }).spec_get_fx_by_index(reaper, spec_index_from_query_index(query_index).0)
}

/// Projects in which `location` on the track `track_ref` names an FX with the focus.
pub open spec fn project_with_focused_fx(reaper: Reaper, track_ref: TrackRef, location: TrackFxRef)
    -> spec_fn(ProjectState) -> bool {
    |s: ProjectState| spec_focused_fx_in(reaper, s.rea_project, track_ref, location) is Some
}

impl Reaper {
    pub open spec fn wf(&self) -> bool {
        &&& self.functions.wf()
        &&& forall|i: int| 0 <= i < self.projects@.len() ==> (#[trigger] self.projects@[i]).wf()
    }

    /// Whether the host handed out the entry point.
    pub open spec fn spec_has(&self, function: HostFunction) -> bool {
        self.functions.spec_has(function)
    }

    /// Whether the host handed out every entry point that looking up an FX by position
    /// goes through.
    pub open spec fn spec_can_find_fx(&self) -> bool {
        &&& self.spec_can_resolve_tracks()
        &&& self.spec_has(HostFunction::TrackFxGetCount)
    }

    /// The parameter that was touched last, if the host names one on a track of the
    /// current project. A parameter of a take FX is not followed, and neither is a track
    /// position beyond the current project's tracks: such a track is in another project.
    pub open spec fn spec_get_last_touched_fx_parameter(&self) -> Result<
        Option<FxParameter>,
        ReaperError,
    > {
        if !self.spec_has(HostFunction::GetLastTouchedFx) || !self.spec_can_find_fx() {
            Err(ReaperError::MissingHostFunction)
        } else {
            match self.last_touched_fx {
                None => Ok(None),
                Some(GetLastTouchedFxResult::TakeFx { .. }) => Ok(None),
                Some(GetLastTouchedFxResult::TrackFx { track_ref, fx_location, param_index }) => {
                    match (Project { rea_project: self.current_project }).spec_get_track_by_ref(
                        *self,
                        track_ref,
                    ) {
                        None => Ok(None),
                        Some(track) => match spec_fx_at(*self, track, fx_location) {
                            Err(e) => Err(e),
                            Ok(None) => Ok(None),
                            Ok(Some(fx)) => Ok(Some(FxParameter { fx, index: param_index })),
                        },
                    }
                },
            }
        }
    }

    /// The FX whose window has the focus, if the host names one on a track. The host
    /// does not say in which project: it is the FX of the first open project, in tab
    /// order, in which the named place holds an FX with the focus.
    pub open spec fn spec_get_focused_fx(&self) -> Result<Option<Fx>, ReaperError> {
        if !self.spec_has(HostFunction::GetFocusedFx) || !self.spec_can_find_fx() {
            Err(ReaperError::MissingHostFunction)
        } else {
            match self.focused_fx {
                None => Ok(None),
                Some(GetFocusedFxResult::TakeFx { .. }) => Ok(None),
                Some(GetFocusedFxResult::TrackFx { track_ref, fx_location }) => match first_index(
                    self.projects@,
                    project_with_focused_fx(*self, track_ref, fx_location),
                ) {
                    Some(i) => Ok(
                        spec_focused_fx_in(
                            *self,
                            self.projects@[i].rea_project,
                            track_ref,
                            fx_location,
                        ),
                    ),
                    None => Ok(None),
                },
            }
        }
    }

    /// The request that puts three bytes of a short MIDI message into a queue.
    pub open spec fn spec_stuff_midi_bytes(
        target: StuffMidiMessageTarget,
        status: u8,
        data_1: u8,
        data_2: u8,
    ) -> HostRequest {
        HostRequest::StuffMidiMessage {
            mode: <i32 as vstd::std_specs::convert::FromSpec<StuffMidiMessageTarget>>::from_spec(
                target,
            ),
            status,
            data_1,
            data_2,
        }
    }

    /// A host with these entry points and projects, no sources, no MIDI devices, no
    /// override and nothing touched or focused.
    pub fn new(functions: FunctionTable, current_project: ReaProject, projects: Vec<
        ProjectState,
    >) -> (reaper: Reaper)
        ensures
            reaper.functions == functions,
            reaper.current_project == current_project,
            reaper.projects == projects,
            reaper.sources@.len() == 0,
            reaper.global_automation_override == AutomationMode::NoOverride,
            reaper.last_touched_fx is None,
            reaper.focused_fx is None,
            reaper.project_in_load_save is None,
            reaper.main_hwnd == 0,
            reaper.version@.len() == 0,
            reaper.max_midi_inputs == 0,
            reaper.max_midi_outputs == 0,
            reaper.midi_inputs_present@.len() == 0,
            reaper.midi_outputs_present@.len() == 0,
    {
        Reaper {
            functions,
            current_project,
            projects,
            sources: Vec::new(),
            global_automation_override: AutomationMode::NoOverride,
            last_touched_fx: None,
            focused_fx: None,
            project_in_load_save: None,
            main_hwnd: 0,
            version: String::new(),
            max_midi_inputs: 0,
            max_midi_outputs: 0,
            midi_inputs_present: Vec::new(),
            midi_outputs_present: Vec::new(),
        }
    }

    /// Tests what [`Reaper::wf`] asks for, for callers that cannot prove it.
    pub fn is_well_formed(&self) -> (b: bool)
        ensures
            b == self.wf(),
    {
        if self.functions.addresses.len() != crate::low_level::HOST_FUNCTION_COUNT {
            return false;
        }
        let mut i: usize = 0;
        while i < self.projects.len()
            invariant
                i <= self.projects@.len(),
                forall|k: int| 0 <= k < i ==> (#[trigger] self.projects@[k]).wf(),
            decreases self.projects@.len() - i,
        {
            let project = &self.projects[i];
            if project.master_track.track_number == i32::MIN {
                assert(!self.projects@[i as int].wf());
                return false;
            }
            let mut j: usize = 0;
            while j < project.tracks.len()
                invariant
                    j <= project.tracks@.len(),
                    i < self.projects@.len(),
                    *project == self.projects@[i as int],
                    forall|k: int| 0 <= k < j ==> (#[trigger] project.tracks@[k]).wf(),
                decreases project.tracks@.len() - j,
            {
                if project.tracks[j].track_number == i32::MIN {
                    assert(!project.tracks@[j as int].wf());
                    assert(!self.projects@[i as int].wf());
                    return false;
                }
                j = j + 1;
            }
            i = i + 1;
        }
        true
    }

    #[verifier::when_used_as_spec(spec_has)]
    pub fn has(&self, function: HostFunction) -> (b: bool)
        requires
            self.wf(),
        ensures
            b == self.spec_has(function),
    {
        self.functions.has(function)
    }

    #[verifier::when_used_as_spec(spec_can_find_fx)]
    pub fn can_find_fx(&self) -> (b: bool)
        requires
            self.wf(),
        ensures
            b == self.spec_can_find_fx(),
    {
        self.can_resolve_tracks() && self.has(HostFunction::TrackFxGetCount)
    }

    /// Fills the process's slot with this instance if the slot is empty. A slot that is
    /// filled stays as it is: the first instance is never replaced. Tells whether the
    /// instance was put in.
    pub fn make_available_globally(slot: &mut ReaperSlot, reaper: Reaper) -> (installed: bool)
        ensures
            installed == (old(slot).instance is None),
            old(slot).instance is Some ==> *final(slot) == *old(slot),
            old(slot).instance is None ==> final(slot).instance == Some(reaper),
    {
        if slot.instance.is_none() {
            slot.instance = Some(reaper);
            true
        } else {
            false
        }
    }

    /// The instance that was made available before. `NotInitialized` where none was.
    pub fn get(slot: &ReaperSlot) -> (r: Result<&Reaper, ReaperError>)
        ensures
            match slot.instance {
                Some(reaper) => r == Ok::<&Reaper, ReaperError>(&reaper),
                None => r == Err::<&Reaper, ReaperError>(ReaperError::NotInitialized),
            },
    {
        match &slot.instance {
            Some(reaper) => Ok(reaper),
            None => Err(ReaperError::NotInitialized),
        }
    }

    /// Brings what is known of the host up to date: the slot takes over everything
    /// that was seen but the entry points, which are resolved once and for all and
    /// stay as they were installed.
    pub fn observe(slot: &mut ReaperSlot, seen: Reaper) -> (r: Result<(), ReaperError>)
        ensures
            old(slot).instance is None ==> r == Err::<(), ReaperError>(ReaperError::NotInitialized)
                && *final(slot) == *old(slot),
            old(slot).instance matches Some(before) ==> r == Ok::<(), ReaperError>(()) && ({
                &&& final(slot).instance matches Some(after)
                &&& after.functions == before.functions
                &&& after.current_project == seen.current_project
                &&& after.projects == seen.projects
                &&& after.sources == seen.sources
                &&& after.global_automation_override == seen.global_automation_override
                &&& after.last_touched_fx == seen.last_touched_fx
                &&& after.focused_fx == seen.focused_fx
                &&& after.project_in_load_save == seen.project_in_load_save
                &&& after.main_hwnd == seen.main_hwnd
                &&& after.version == seen.version
                &&& after.max_midi_inputs == seen.max_midi_inputs
                &&& after.max_midi_outputs == seen.max_midi_outputs
                &&& after.midi_inputs_present == seen.midi_inputs_present
                &&& after.midi_outputs_present == seen.midi_outputs_present
            }),
    {
        match slot.instance.take() {
            None => Err(ReaperError::NotInitialized),
            Some(before) => {
                let mut after = seen;
                after.functions = before.functions;
                slot.instance = Some(after);
                Ok(())
            },
        }
    }

    /// The table of entry points that the host handed out.
    pub fn medium(&self) -> (functions: &FunctionTable)
        ensures
            *functions == self.functions,
    {
        &self.functions
    }

    pub fn get_main_section(&self) -> (section: Section)
        ensures
            section == (Section { id: SectionId(0) }),
    {
        Section::new(SectionId(0))
    }

    pub fn get_last_touched_fx_parameter(&self) -> (r: Result<Option<FxParameter>, ReaperError>)
        requires
            self.wf(),
        ensures
            r == self.spec_get_last_touched_fx_parameter(),
    {
        if !self.has(HostFunction::GetLastTouchedFx) || !self.can_find_fx() {
            return Err(ReaperError::MissingHostFunction);
        }
        match self.last_touched_fx {
            None => Ok(None),
            Some(GetLastTouchedFxResult::TakeFx { .. }) => Ok(None),
            Some(GetLastTouchedFxResult::TrackFx { track_ref, fx_location, param_index }) => {
                let project = Project::new(self.current_project);
                let track = match project.get_track_by_ref(self, track_ref) {
                    None => {
                        return Ok(None);
                    },
                    Some(track) => track,
                };
                match track.get_fx_by_query_index(self, i32::from(fx_location)) {
                    Err(e) => Err(e),
                    Ok(None) => Ok(None),
                    Ok(Some(fx)) => Ok(Some(FxParameter { fx, index: param_index })),
                }
            },
        }
    }

    /// The FX that `location` names on the track that `track_ref` names in a project, if
    /// its window has the focus.
    pub fn focused_fx_in(&self, project: ReaProject, track_ref: TrackRef, location: TrackFxRef)
        -> (fx: Option<Fx>)
        requires
            self.wf(),
        ensures
            fx == spec_focused_fx_in(*self, project, track_ref, location),
    {
        let track = match Project::new(project).get_track_by_ref(self, track_ref) {
            None => {
                return None;
            },
            Some(track) => track,
        };
        match track.get_fx_by_query_index(self, i32::from(location)) {
            Ok(Some(fx)) => match fx.window_has_focus(self) {
                Ok(true) => Some(fx),
                _ => None,
            },
            _ => None,
        }
    }

    #[verifier::loop_isolation(false)]
    pub fn get_focused_fx(&self) -> (r: Result<Option<Fx>, ReaperError>)
        requires
            self.wf(),
        ensures
            r == self.spec_get_focused_fx(),
    {
        if !self.has(HostFunction::GetFocusedFx) || !self.can_find_fx() {
            return Err(ReaperError::MissingHostFunction);
        }
        match self.focused_fx {
            None => Ok(None),
            Some(GetFocusedFxResult::TakeFx { .. }) => Ok(None),
            Some(GetFocusedFxResult::TrackFx { track_ref, fx_location }) => {
                let ghost pred = project_with_focused_fx(*self, track_ref, fx_location);
                let mut i: usize = 0;
                while i < self.projects.len()
                    invariant
                        i <= self.projects@.len(),
                        self.wf(),
                        pred == project_with_focused_fx(*self, track_ref, fx_location),
                        first_index_from(self.projects@, pred, i as int) == first_index(
                            self.projects@,
                            pred,
                        ),
                    decreases self.projects@.len() - i,
                {
                    let candidate = self.focused_fx_in(
                        self.projects[i].rea_project,
                        track_ref,
                        fx_location,
                    );
                    assert(pred(self.projects@[i as int]) == (candidate is Some));
                    if candidate.is_some() {
                        return Ok(candidate);
                    }
                    i = i + 1;
                }
                Ok(None)
            },
        }
    }

    pub fn get_current_project(&self) -> (r: Result<Project, ReaperError>)
        requires
            self.wf(),
        ensures
            r == if self.spec_has(HostFunction::EnumProjects) {
                Ok::<Project, ReaperError>(Project { rea_project: self.current_project })
            } else {
                Err::<Project, ReaperError>(ReaperError::MissingHostFunction)
            },
    {
        if !self.has(HostFunction::EnumProjects) {
            return Err(ReaperError::MissingHostFunction);
        }
        Ok(Project::new(self.current_project))
    }

    pub fn get_main_window(&self) -> (hwnd: usize)
        ensures
            hwnd == self.main_hwnd,
    {
        self.main_hwnd
    }

    /// The open projects in tab order.
    pub fn get_projects(&self) -> (r: Result<Vec<Project>, ReaperError>)
        requires
            self.wf(),
        ensures
            !self.spec_has(HostFunction::EnumProjects) ==> r == Err::<Vec<Project>, ReaperError>(
                ReaperError::MissingHostFunction,
            ),
            self.spec_has(HostFunction::EnumProjects) ==> (r matches Ok(v) && v@.len()
                == self.projects@.len() && forall|i: int|
                0 <= i < v@.len() ==> (#[trigger] v@[i]).rea_project
                    == self.projects@[i].rea_project),
    {
        if !self.has(HostFunction::EnumProjects) {
            return Err(ReaperError::MissingHostFunction);
        }
        let mut result: Vec<Project> = Vec::new();
        let mut i: usize = 0;
        while i < self.projects.len()
            invariant
                i <= self.projects@.len(),
                result@.len() == i,
                forall|k: int|
                    0 <= k < i ==> (#[trigger] result@[k]).rea_project
                        == self.projects@[k].rea_project,
            decreases self.projects@.len() - i,
        {
            result.push(Project::new(self.projects[i].rea_project));
            i = i + 1;
        }
        Ok(result)
    }

    /// Number of open projects, cut to 32 bits.
    pub fn get_project_count(&self) -> (r: Result<u32, ReaperError>)
        requires
            self.wf(),
        ensures
            r == if self.spec_has(HostFunction::EnumProjects) {
                Ok::<u32, ReaperError>(self.projects@.len() as u32)
            } else {
                Err::<u32, ReaperError>(ReaperError::MissingHostFunction)
            },
    {
        if !self.has(HostFunction::EnumProjects) {
            return Err(ReaperError::MissingHostFunction);
        }
        Ok(self.projects.len() as u32)
    }

    pub fn get_version(&self) -> (version: String)
        ensures
            version == self.version,
    {
        self.version.clone()
    }

    /// Asks the host to empty its console.
    pub fn clear_console(&self) -> (r: Result<HostRequest, ReaperError>)
        requires
            self.wf(),
        ensures
            r == if self.spec_has(HostFunction::ClearConsole) {
                Ok::<HostRequest, ReaperError>(HostRequest::ClearConsole)
            } else {
                Err::<HostRequest, ReaperError>(ReaperError::MissingHostFunction)
            },
    {
        if !self.has(HostFunction::ClearConsole) {
            return Err(ReaperError::MissingHostFunction);
        }
        Ok(HostRequest::ClearConsole)
    }

    /// The request that puts three bytes of a short MIDI message into a queue.
    pub fn stuff_midi_bytes(target: StuffMidiMessageTarget, status: u8, data_1: u8, data_2: u8)
        -> (request: HostRequest)
        ensures
            request == Reaper::spec_stuff_midi_bytes(target, status, data_1, data_2),
    {
        HostRequest::StuffMidiMessage { mode: i32::from(target), status, data_1, data_2 }
    }

    /// Asks the host to put a short MIDI message into one of its queues. The request
    /// carries the message's three bytes as `helgoboss_midi` gives them.
    pub fn stuff_midi_message(&self, target: StuffMidiMessageTarget, message: &RawShortMessage)
        -> (r: Result<HostRequest, ReaperError>)
        requires
            self.wf(),
        ensures
            !self.spec_has(HostFunction::StuffMidiMessage) ==> r == Err::<
                HostRequest,
                ReaperError,
            >(ReaperError::MissingHostFunction),
            self.spec_has(HostFunction::StuffMidiMessage) ==> exists|
                status: u8,
                data_1: u8,
                data_2: u8,
            |
                data_1 <= 127 && data_2 <= 127 && r == Ok::<HostRequest, ReaperError>(
                    #[trigger] Reaper::spec_stuff_midi_bytes(target, status, data_1, data_2),
                ),
    {
        if !self.has(HostFunction::StuffMidiMessage) {
            return Err(ReaperError::MissingHostFunction);
        }
        let bytes = short_message_to_bytes(message);
        let data_1 = u7_get(bytes.1);
        let data_2 = u7_get(bytes.2);
        Ok(Reaper::stuff_midi_bytes(target, bytes.0, data_1, data_2))
    }

    /// The automation mode that the host forces on all tracks, `NoOverride` if none.
    pub fn get_global_automation_override(&self) -> (r: Result<AutomationMode, ReaperError>)
        requires
            self.wf(),
        ensures
            r == if self.spec_has(HostFunction::GetGlobalAutomationOverride) {
                Ok::<AutomationMode, ReaperError>(self.global_automation_override)
            } else {
                Err::<AutomationMode, ReaperError>(ReaperError::MissingHostFunction)
            },
    {
        if !self.has(HostFunction::GetGlobalAutomationOverride) {
            return Err(ReaperError::MissingHostFunction);
        }
        Ok(self.global_automation_override)
    }

    /// The identity that the host made up on request.
    pub fn generate_guid(&self, made_up: u128) -> (guid: Guid)
        ensures
            guid.bits == made_up,
    {
        Guid::new(made_up)
    }

    /// A device by its number. The number names the device whether or not it is there.
    pub fn get_midi_input_device_by_id(&self, id: MidiInputDeviceId) -> (device: MidiInputDevice)
        ensures
            device.id == id,
    {
        MidiInputDevice::new(id)
    }

    /// A device by its number. The number names the device whether or not it is there.
    pub fn get_midi_output_device_by_id(&self, id: MidiOutputDeviceId) -> (device:
        MidiOutputDevice)
        ensures
            device.id == id,
    {
        MidiOutputDevice::new(id)
    }

    /// The MIDI input devices that are there, in rising order of their numbers.
    pub fn get_midi_input_devices(&self) -> (devices: Vec<MidiInputDevice>)
        ensures
            devices@.len() == spec_present_ids(
                self.midi_inputs_present@,
                self.max_midi_inputs as nat,
            ).len(),
            forall|k: int|
                0 <= k < devices@.len() ==> (#[trigger] devices@[k]).id.0 == spec_present_ids(
                    self.midi_inputs_present@,
                    self.max_midi_inputs as nat,
                )[k],
    {
        let mut devices: Vec<MidiInputDevice> = Vec::new();
        let mut i: u32 = 0;
        while i < self.max_midi_inputs
            invariant
                i <= self.max_midi_inputs,
                devices@.len() == spec_present_ids(self.midi_inputs_present@, i as nat).len(),
                forall|k: int|
                    0 <= k < devices@.len() ==> (#[trigger] devices@[k]).id.0 == spec_present_ids(
                        self.midi_inputs_present@,
                        i as nat,
                    )[k],
            decreases self.max_midi_inputs - i,
        {
            let device = self.get_midi_input_device_by_id(MidiInputDeviceId(i as u8));
            if device.is_available(self) {
                devices.push(device);
            }
            i = i + 1;
        }
        devices
    }

    /// The MIDI output devices that are there, in rising order of their numbers.
    pub fn get_midi_output_devices(&self) -> (devices: Vec<MidiOutputDevice>)
        ensures
            devices@.len() == spec_present_ids(
                self.midi_outputs_present@,
                self.max_midi_outputs as nat,
            ).len(),
            forall|k: int|
                0 <= k < devices@.len() ==> (#[trigger] devices@[k]).id.0 == spec_present_ids(
                    self.midi_outputs_present@,
                    self.max_midi_outputs as nat,
                )[k],
    {
        let mut devices: Vec<MidiOutputDevice> = Vec::new();
        let mut i: u32 = 0;
        while i < self.max_midi_outputs
            invariant
                i <= self.max_midi_outputs,
                devices@.len() == spec_present_ids(self.midi_outputs_present@, i as nat).len(),
                forall|k: int|
                    0 <= k < devices@.len() ==> (#[trigger] devices@[k]).id.0 == spec_present_ids(
                        self.midi_outputs_present@,
                        i as nat,
                    )[k],
            decreases self.max_midi_outputs - i,
        {
            let device = self.get_midi_output_device_by_id(MidiOutputDeviceId(i as u8));
            if device.is_available(self) {
                devices.push(device);
            }
            i = i + 1;
        }
        devices
    }

    pub fn get_currently_loading_or_saving_project(&self) -> (project: Option<Project>)
        ensures
            project == match self.project_in_load_save {
                Some(p) => Some(Project { rea_project: p }),
                None => None,
            },
    {
        match self.project_in_load_save {
            Some(p) => Some(Project::new(p)),
            None => None,
        }
    }

    /// An action by its command name. The name names the action whether or not the host
    /// has it.
    pub fn get_action_by_command_name(&self, command_name: String) -> (action: Action)
        ensures
            action == (Action::CommandNameBased { command_name }),
    {
        Action::command_name_based(command_name)
    }

    /// Asks the host to print a text on its console.
    pub fn show_console_msg(&self, msg: &str) -> (r: Result<HostRequest, ReaperError>)
        requires
            self.wf(),
        ensures
            !self.spec_has(HostFunction::ShowConsoleMsg) ==> r == Err::<HostRequest, ReaperError>(
                ReaperError::MissingHostFunction,
            ),
            self.spec_has(HostFunction::ShowConsoleMsg) ==> (r matches Ok(
                HostRequest::ShowConsoleMsg { msg: text },
            ) && text@ == msg@),
    {
        if !self.has(HostFunction::ShowConsoleMsg) {
            return Err(ReaperError::MissingHostFunction);
        }
        Ok(HostRequest::ShowConsoleMsg { msg: msg.to_owned() })
    }

    /// Asks the host to open an empty project in a new tab, by running its action for
    /// that. The new project is the current one once the host has done so.
    pub fn create_empty_project_in_new_tab(&self) -> (r: Result<HostRequest, ReaperError>)
        requires
            self.wf(),
        ensures
            r == if self.spec_has(HostFunction::MainOnCommandEx) {
                Ok::<HostRequest, ReaperError>(
                    HostRequest::InvokeCommand { command_id: COMMAND_NEW_PROJECT_TAB },
                )
            } else {
                Err::<HostRequest, ReaperError>(ReaperError::MissingHostFunction)
            },
    {
        self.get_main_section().get_action_by_command_id(
            CommandId(COMMAND_NEW_PROJECT_TAB),
        ).invoke_as_trigger(self, None)
    }
}

} // verus!
