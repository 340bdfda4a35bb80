//! Sends of a track.

use crate::track::Track;
use vstd::prelude::*;

verus! {

/// A send of a track, named by its position among the track's sends. A position is no
/// identity: it names whatever send stands there when it is used.
#[derive(Clone, Debug, PartialEq, Eq)]
pub struct TrackSend {
    pub source_track: Track,
    pub index: u32,
}

impl TrackSend {
    pub fn index_based(source_track: Track, index: u32) -> (send: TrackSend)
        ensures
            send.source_track == source_track,
            send.index == index,
    {
        TrackSend { source_track, index }
    }
}

} // verus!
