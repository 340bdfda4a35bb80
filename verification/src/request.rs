//! What this layer asks the host to do.

use crate::low_level::{MediaTrack, PcmSource};
use vstd::prelude::*;

verus! {

/// Number of the host's action that opens an empty project in a new tab.
pub const COMMAND_NEW_PROJECT_TAB: u32 = 41929;

/// Something that has to be done on the host's side. This layer decides what is to be
/// done and to which object; whoever holds the host's function table carries it out,
/// on the main thread.
#[derive(Clone, Debug, PartialEq, Eq)]
pub enum HostRequest {
    /// Write a track's name.
    SetTrackName { track: MediaTrack, name: String },
    /// Tell the host that a track's input monitoring changed.
    SetInputMonitoringMode { track: MediaTrack, mode: i32, allow_gang: bool },
    /// Write a track's recording input.
    SetRecordingInput { track: MediaTrack, rec_input_index: u32 },
    /// Tell the control surfaces about a track's input monitoring, so that they learn
    /// of a change of its recording input.
    NotifyInputMonitor { track: MediaTrack, rec_mon: i32 },
    /// Print a line on the host's console.
    ShowConsoleMsg { msg: String },
    /// Empty the host's console.
    ClearConsole,
    /// Put a short MIDI message into one of the host's queues. Safe on the audio thread.
    StuffMidiMessage { mode: i32, status: u8, data_1: u8, data_2: u8 },
    /// Run one of the host's actions in the main section.
    InvokeCommand { command_id: u32 },
    /// Load a PCM source's state from a buffer of NUL-divided records.
    LoadSourceState { source: PcmSource, buffer: Vec<u8> },
    /// Make a copy of a PCM source. The host answers with the copy's address, or with
    /// nothing where the source cannot be copied.
    DuplicateSource { source: PcmSource },
    /// Write a PCM source to a file.
    ExportSourceToFile { source: PcmSource, file: String },
    /// Free a PCM source that this side owns.
    ReleaseSource { source: PcmSource },
}

} // verus!
