//! Recording inputs of a track.

use vstd::prelude::*;

verus! {

/// First recording input index that stands for a MIDI input.
pub const MIDI_REC_INPUT_OFFSET: i32 = 4096;

/// A MIDI recording input, by the host's index for it.
#[derive(Clone, Copy, Debug, PartialEq, Eq, Structural)]
pub struct MidiRecordingInput {
    pub rec_input_index: u32,
}

impl MidiRecordingInput {
    pub fn new(rec_input_index: u32) -> (input: MidiRecordingInput)
        ensures
            input.rec_input_index == rec_input_index,
    {
        MidiRecordingInput { rec_input_index }
    }

    pub fn get_rec_input_index(&self) -> (index: u32)
        ensures
            index == self.rec_input_index,
    {
        self.rec_input_index
    }
}

/// What a track records from.
#[derive(Clone, Copy, Debug, PartialEq, Eq, Structural)]
pub enum RecordingInput {
    /// The host's index is negative: the track has no input.
    NoInput,
    /// An audio input, by the host's index.
    Audio(u32),
    Midi(MidiRecordingInput),
}

impl RecordingInput {
    pub open spec fn spec_from_rec_input_index(rec_input_index: i32) -> RecordingInput {
        if rec_input_index < 0 {
            RecordingInput::NoInput
        } else if rec_input_index >= MIDI_REC_INPUT_OFFSET {
            RecordingInput::Midi(MidiRecordingInput { rec_input_index: rec_input_index as u32 })
        } else {
            RecordingInput::Audio(rec_input_index as u32)
        }
    }

    /// The input that the host's index stands for.
    #[verifier::when_used_as_spec(spec_from_rec_input_index)]
    pub fn from_rec_input_index(rec_input_index: i32) -> (input: RecordingInput)
        ensures
            input == RecordingInput::spec_from_rec_input_index(rec_input_index),
    {
        if rec_input_index < 0 {
            RecordingInput::NoInput
        } else if rec_input_index >= MIDI_REC_INPUT_OFFSET {
            RecordingInput::Midi(MidiRecordingInput { rec_input_index: rec_input_index as u32 })
        } else {
            RecordingInput::Audio(rec_input_index as u32)
        }
    }
}

} // verus!
