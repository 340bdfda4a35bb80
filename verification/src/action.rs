//! Actions of the host and the sections of its action list.

use crate::error::ReaperError;
use crate::low_level::HostFunction;
use crate::project::Project;
use crate::reaper::Reaper;
use crate::request::HostRequest;
use vstd::prelude::*;

verus! {

/// Number of a section of the host's action list.
#[derive(Clone, Copy, Debug, PartialEq, Eq, Structural, Hash)]
pub struct SectionId(pub u32);

/// Number of a command of the host.
#[derive(Clone, Copy, Debug, PartialEq, Eq, Structural, Hash)]
pub struct CommandId(pub u32);

/// A section of the host's action list.
#[derive(Clone, Copy, Debug, PartialEq, Eq, Structural, Hash)]
pub struct Section {
    pub id: SectionId,
}

/// An action of the host, named by its command number or by its command name. Whether
/// it exists is seen when it is invoked.
#[derive(Clone, Debug, PartialEq, Eq)]
pub enum Action {
    CommandIdBased { section: Section, command_id: CommandId },
    CommandNameBased { command_name: String },
}

impl Section {
    pub fn new(id: SectionId) -> (section: Section)
        ensures
            section.id == id,
    {
        Section { id }
    }

    pub fn get_action_by_command_id(&self, command_id: CommandId) -> (action: Action)
        ensures
            action == (Action::CommandIdBased { section: *self, command_id }),
    {
        Action::CommandIdBased { section: *self, command_id }
    }
}

impl Action {
    pub fn command_name_based(command_name: String) -> (action: Action)
        ensures
            action == (Action::CommandNameBased { command_name }),
    {
        Action::CommandNameBased { command_name }
    }

    /// What `invoke_as_trigger` returns: the request to run the command, for an action
    /// that is named by number. An action that is named by name alone has no number to
    /// run and is unavailable.
    pub open spec fn spec_invoke_as_trigger(self, reaper: Reaper) -> Result<HostRequest, ReaperError> {
        if !reaper.spec_has(HostFunction::MainOnCommandEx) {
            Err(ReaperError::MissingHostFunction)
        } else {
            match self {
                Action::CommandIdBased { section, command_id } => Ok(
                    HostRequest::InvokeCommand { command_id: command_id.0 },
                ),
                Action::CommandNameBased { command_name } => Err(ReaperError::Unavailable),
            }
        }
    }

    /// Asks the host to run the action once, in the current project where none is
    /// given.
    pub fn invoke_as_trigger(&self, reaper: &Reaper, project: Option<Project>) -> (r: Result<
        HostRequest,
        ReaperError,
    >)
        requires
            reaper.wf(),
        ensures
            r == self.spec_invoke_as_trigger(*reaper),
    {
        if !reaper.has(HostFunction::MainOnCommandEx) {
            return Err(ReaperError::MissingHostFunction);
        }
        match self {
            Action::CommandIdBased { section, command_id } => Ok(
                HostRequest::InvokeCommand { command_id: command_id.0 },
            ),
            Action::CommandNameBased { command_name } => Err(ReaperError::Unavailable),
        }
    }
}

} // verus!
