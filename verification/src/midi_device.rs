//! MIDI devices by number.

use crate::reaper::Reaper;
use vstd::prelude::*;

verus! {

/// Number of a MIDI input device as the host counts them.
#[derive(Clone, Copy, Debug, PartialEq, Eq, Structural, Hash)]
pub struct MidiInputDeviceId(pub u8);

/// Number of a MIDI output device as the host counts them.
#[derive(Clone, Copy, Debug, PartialEq, Eq, Structural, Hash)]
pub struct MidiOutputDeviceId(pub u8);

/// A MIDI input device by its number. Whether the device is there is asked each time.
#[derive(Clone, Copy, Debug, PartialEq, Eq, Structural, Hash)]
pub struct MidiInputDevice {
    pub id: MidiInputDeviceId,
}

/// A MIDI output device by its number. Whether the device is there is asked each time.
#[derive(Clone, Copy, Debug, PartialEq, Eq, Structural, Hash)]
pub struct MidiOutputDevice {
    pub id: MidiOutputDeviceId,
}

/// Whether the host lists a device under the number.
pub open spec fn spec_is_present(present: Seq<bool>, id: u8) -> bool {
    id < present.len() && present[id as int]
}

pub fn is_present(present: &Vec<bool>, id: u8) -> (b: bool)
    ensures
        b == spec_is_present(present@, id),
{
    if (id as usize) < present.len() {
        present[id as usize]
    } else {
        false
    }
}

/// The numbers below `count`, each cut to eight bits, under which the host lists a
/// device, in rising order of the uncut number.
pub open spec fn spec_present_ids(present: Seq<bool>, count: nat) -> Seq<u8>
    decreases count,
{
    if count == 0 {
        Seq::empty()
    } else {
        let rest = spec_present_ids(present, (count - 1) as nat);
        let id = ((count - 1) as u32) as u8;
        if spec_is_present(present, id) {
            rest.push(id)
        } else {
            rest
        }
    }
}

impl MidiInputDevice {
    pub fn new(id: MidiInputDeviceId) -> (device: MidiInputDevice)
        ensures
            device.id == id,
    {
        MidiInputDevice { id }
    }

    pub fn is_available(&self, reaper: &Reaper) -> (b: bool)
        ensures
            b == spec_is_present(reaper.midi_inputs_present@, self.id.0),
    {
        is_present(&reaper.midi_inputs_present, self.id.0)
    }
}

impl MidiOutputDevice {
    pub fn new(id: MidiOutputDeviceId) -> (device: MidiOutputDevice)
        ensures
            device.id == id,
    {
        MidiOutputDevice { id }
    }

    pub fn is_available(&self, reaper: &Reaper) -> (b: bool)
        ensures
            b == spec_is_present(reaper.midi_outputs_present@, self.id.0),
    {
        is_present(&reaper.midi_outputs_present, self.id.0)
    }
}

} // verus!
