//! FX of a track, keyed by identity, and the host's numbering of them.

use crate::error::ReaperError;
use crate::guid::Guid;
use crate::host::FxState;
use crate::low_level::HostFunction;
use crate::misc_enums::INPUT_FX_OFFSET;
use crate::reaper::Reaper;
use crate::search::{first_index, first_index_from};
use crate::track::Track;
use vstd::prelude::*;

verus! {

/// FX states with this identity.
pub open spec fn fx_with_guid(guid: Guid) -> spec_fn(FxState) -> bool {
    |s: FxState| s.guid == guid
}

/// Splits the host's number for an FX into the position in its chain and whether the
/// chain is the input chain. The number is read as an unsigned one.
pub open spec fn spec_index_from_query_index(query_index: i32) -> (u32, bool) {
    if query_index >= INPUT_FX_OFFSET {
        ((query_index - INPUT_FX_OFFSET) as u32, true)
    } else {
        (query_index as u32, false)
    }
}

#[verifier::when_used_as_spec(spec_index_from_query_index)]
pub fn get_index_from_query_index(query_index: i32) -> (r: (u32, bool))
    ensures
        r == spec_index_from_query_index(query_index),
{
    if query_index >= INPUT_FX_OFFSET as i32 {
        ((query_index - INPUT_FX_OFFSET as i32) as u32, true)
    } else {
        (query_index as u32, false)
    }
}

/// An FX of a track, keyed by its identity.
#[derive(Clone, Debug, PartialEq, Eq)]
pub struct Fx {
    pub track: Track,
    pub guid: Guid,
    pub is_input_fx: bool,
}

/// A parameter of an FX, by position.
#[derive(Clone, Debug, PartialEq, Eq)]
pub struct FxParameter {
    pub fx: Fx,
    pub index: u32,
}

/// One of the two FX chains of a track.
#[derive(Clone, Debug, PartialEq, Eq)]
pub struct FxChain {
    pub track: Track,
    pub is_input_fx: bool,
}

impl Fx {
    pub fn get_parameter_by_index(&self, index: u32) -> (p: FxParameter)
        ensures
            p.fx == *self,
            p.index == index,
    {
        FxParameter {
            fx: Fx { track: self.track.copy(), guid: self.guid, is_input_fx: self.is_input_fx },
            index,
        }
    }

    /// Whether the window of the FX has the focus: the FX is looked up by its identity
    /// in its chain on the track as it is now. `Unavailable` where the track or the FX
    /// is gone.
    pub open spec fn spec_window_has_focus(self, reaper: Reaper) -> Result<bool, ReaperError> {
        if !reaper.spec_has(HostFunction::TrackFxGetCount) {
            Err(ReaperError::MissingHostFunction)
        } else {
            match self.track.spec_resolved_state(reaper) {
                Err(e) => Err(e),
                Ok(state) => match first_index(
                    state.spec_fx_chain(self.is_input_fx),
                    fx_with_guid(self.guid),
                ) {
                    Some(i) => Ok(state.spec_fx_chain(self.is_input_fx)[i].window_has_focus),
                    None => Err(ReaperError::Unavailable),
                },
            }
        }
    }

    #[verifier::loop_isolation(false)]
    pub fn window_has_focus(&self, reaper: &Reaper) -> (r: Result<bool, ReaperError>)
        requires
            reaper.wf(),
        ensures
            r == self.spec_window_has_focus(*reaper),
    {
        if !reaper.has(HostFunction::TrackFxGetCount) {
            return Err(ReaperError::MissingHostFunction);
        }
        let mut track = self.track.copy();
        match track.resolve_state(reaper) {
            Err(e) => Err(e),
            Ok((_, state)) => {
                let chain = state.fx_chain(self.is_input_fx);
                let mut i: usize = 0;
                while i < chain.len()
                    invariant
                        i <= chain@.len(),
                        first_index_from(chain@, fx_with_guid(self.guid), i as int) == first_index(
                            chain@,
                            fx_with_guid(self.guid),
                        ),
                    decreases chain@.len() - i,
                {
                    if chain[i].guid == self.guid {
                        return Ok(chain[i].window_has_focus);
                    }
                    i = i + 1;
                }
                Err(ReaperError::Unavailable)
            },
        }
    }
}

impl FxChain {
    pub fn new(track: Track, is_input_fx: bool) -> (chain: FxChain)
        ensures
            chain.track == track,
            chain.is_input_fx == is_input_fx,
    {
        FxChain { track, is_input_fx }
    }

    /// The FX that stands at the position now, as a handle keyed by the identity of that
    /// FX. `Ok(None)` where the chain is shorter.
    pub open spec fn spec_get_fx_by_index(self, reaper: Reaper, index: u32) -> Result<
        Option<Fx>,
        ReaperError,
    > {
        if !reaper.spec_has(HostFunction::TrackFxGetCount) {
            Err(ReaperError::MissingHostFunction)
        } else {
            match self.track.spec_resolved_state(reaper) {
                Err(e) => Err(e),
                Ok(state) => {
                    let chain = state.spec_fx_chain(self.is_input_fx);
                    if index < chain.len() {
                        Ok(
                            Some(
                                Fx {
                                    track: self.track.spec_resolve(reaper).0,
                                    guid: chain[index as int].guid,
                                    is_input_fx: self.is_input_fx,
                                },
                            ),
                        )
                    } else {
                        Ok(None)
                    }
                },
            }
        }
    }

    pub fn get_fx_by_index(&self, reaper: &Reaper, index: u32) -> (r: Result<
        Option<Fx>,
        ReaperError,
    >)
        requires
            reaper.wf(),
        ensures
            r == self.spec_get_fx_by_index(*reaper, index),
    {
        if !reaper.has(HostFunction::TrackFxGetCount) {
            return Err(ReaperError::MissingHostFunction);
        }
        let mut track = self.track.copy();
        match track.resolve_state(reaper) {
            Err(e) => Err(e),
            Ok((_, state)) => {
                let chain = state.fx_chain(self.is_input_fx);
                if (index as usize) < chain.len() {
                    Ok(
                        Some(
                            Fx {
                                track,
                                guid: chain[index as usize].guid,
                                is_input_fx: self.is_input_fx,
                            },
                        ),
                    )
                } else {
                    Ok(None)
                }
            },
        }
    }
}

} // verus!
