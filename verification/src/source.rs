//! PCM sources: borrowed and owned, their validation and their state as text.

use crate::error::ReaperError;
use crate::guid::Guid;
use crate::host::{source_at, SourceState};
use crate::low_level::{HostFunction, PcmSource};
use crate::project::Project;
use crate::reaper::Reaper;
use crate::request::HostRequest;
use crate::search::{first_index, first_index_from, lemma_first_index};
use vstd::prelude::*;
use vstd::string::*;

verus! {

/// The byte that divides the records of a source's state as the host writes it.
pub const NUL: u8 = 0;

/// The byte that divides the records of a source's state as text.
pub const NEWLINE: u8 = 10;

/// A state as text: every NUL byte turned into a newline, every other byte kept.
pub open spec fn spec_nul_to_newline(bytes: Seq<u8>) -> Seq<u8> {
    Seq::new(bytes.len(), |i: int| if bytes[i] == NUL { NEWLINE } else { bytes[i] })
}

/// A text as state: every newline turned into a NUL byte, every other byte kept.
pub open spec fn spec_newline_to_nul(bytes: Seq<u8>) -> Seq<u8> {
    Seq::new(bytes.len(), |i: int| if bytes[i] == NEWLINE { NUL } else { bytes[i] })
}

/// Whether a byte occurs nowhere in the bytes.
pub open spec fn is_free_of(bytes: Seq<u8>, byte: u8) -> bool {
    forall|i: int| 0 <= i < bytes.len() ==> bytes[i] != byte
}

pub fn nul_to_newline(bytes: &[u8]) -> (text: Vec<u8>)
    ensures
        text@ == spec_nul_to_newline(bytes@),
{
    let mut text: Vec<u8> = Vec::new();
    let mut i: usize = 0;
    while i < bytes.len()
        invariant
            i <= bytes@.len(),
            text@.len() == i,
            forall|k: int| 0 <= k < i ==> text@[k] == spec_nul_to_newline(bytes@)[k],
        decreases bytes@.len() - i,
    {
        let b = bytes[i];
        if b == NUL {
            text.push(NEWLINE);
        } else {
            text.push(b);
        }
        i = i + 1;
    }
    assert(text@ =~= spec_nul_to_newline(bytes@));
    text
}

pub fn newline_to_nul(text: &[u8]) -> (bytes: Vec<u8>)
    ensures
        bytes@ == spec_newline_to_nul(text@),
{
    let mut bytes: Vec<u8> = Vec::new();
    let mut i: usize = 0;
    while i < text.len()
        invariant
            i <= text@.len(),
            bytes@.len() == i,
            forall|k: int| 0 <= k < i ==> bytes@[k] == spec_newline_to_nul(text@)[k],
        decreases text@.len() - i,
    {
        let b = text[i];
        if b == NEWLINE {
            bytes.push(NUL);
        } else {
            bytes.push(b);
        }
        i = i + 1;
    }
    assert(bytes@ =~= spec_newline_to_nul(text@));
    bytes
}

/// A text without NUL bytes comes back unchanged when it is turned into a state and the
/// state into text again, newlines and all.
pub proof fn lemma_text_survives_round_trip(text: Seq<u8>)
    requires
        is_free_of(text, NUL),
    ensures
        spec_nul_to_newline(spec_newline_to_nul(text)) == text,
        is_free_of(spec_newline_to_nul(text), NEWLINE),
{
    assert(spec_nul_to_newline(spec_newline_to_nul(text)) =~= text);
}

/// A state without newline bytes comes back unchanged when it is turned into text and
/// the text into a state again. A state that holds a newline does not: its newline
/// comes back as a NUL byte.
pub proof fn lemma_state_survives_round_trip(state: Seq<u8>)
    requires
        is_free_of(state, NEWLINE),
    ensures
        spec_newline_to_nul(spec_nul_to_newline(state)) == state,
        is_free_of(spec_nul_to_newline(state), NUL),
{
    assert(spec_newline_to_nul(spec_nul_to_newline(state)) =~= state);
}

/// The source at the end of the chain of parents that starts at `source`, followed for
/// at most `steps` links. The chain ends at a source that has no parent or that the
/// host does not know.
pub open spec fn spec_root_within(sources: Seq<SourceState>, source: PcmSource, steps: nat)
    -> PcmSource
    decreases steps,
{
    if steps == 0 {
        source
    } else {
        match first_index(sources, source_at(source)) {
            Some(i) => match sources[i].parent {
                Some(parent) => spec_root_within(sources, parent, (steps - 1) as nat),
                None => source,
            },
            None => source,
        }
    }
}

/// What the host's sources are after it has loaded a state into the source at an
/// address: the sources stand where they stood, every source at the address holds the
/// new state, and every other source is as it was.
pub open spec fn is_after_load(
    before: Seq<SourceState>,
    after: Seq<SourceState>,
    source: PcmSource,
    buffer: Seq<u8>,
) -> bool {
    &&& after.len() == before.len()
    &&& forall|i: int|
        0 <= i < before.len() ==> (#[trigger] after[i]).source == before[i].source && if before[i].source
            == source {
            after[i].state@ == buffer
        } else {
            after[i] == before[i]
        }
}

/// What the host's sources are after it has made a copy of a source: the sources
/// from before stand where they stood, and after them stands the copy, at an address
/// that was not in use, with the state of the source that it was made from.
pub open spec fn is_after_duplicate(
    before: Seq<SourceState>,
    after: Seq<SourceState>,
    made_from: PcmSource,
    copy: PcmSource,
) -> bool {
    &&& first_index(before, source_at(made_from)) matches Some(i) && after.last().state@
        == before[i].state@
    &&& first_index(before, source_at(copy)) is None
    &&& after.len() == before.len() + 1
    &&& forall|k: int| 0 <= k < before.len() ==> #[trigger] after[k] == before[k]
    &&& after.last().source == copy
}

impl Reaper {
    /// Position of the first live source at the address.
    pub open spec fn spec_find_source(&self, source: PcmSource) -> Option<int> {
        first_index(self.sources@, source_at(source))
    }

    /// The state of the source at the address as text, if the source is live.
    pub open spec fn spec_source_text(&self, source: PcmSource) -> Option<Seq<u8>> {
        match self.spec_find_source(source) {
            Some(i) => Some(spec_nul_to_newline(self.sources@[i].state@)),
            None => None,
        }
    }

    pub fn find_source(&self, source: PcmSource) -> (found: Option<usize>)
        ensures
            found matches Some(i) ==> self.spec_find_source(source) == Some(i as int) && i
                < self.sources@.len(),
            found is None ==> self.spec_find_source(source) is None,
    {
        let mut i: usize = 0;
        while i < self.sources.len()
            invariant
                i <= self.sources@.len(),
                first_index_from(self.sources@, source_at(source), i as int) == first_index(
                    self.sources@,
                    source_at(source),
                ),
            decreases self.sources@.len() - i,
        {
            if self.sources[i].source == source {
                return Some(i);
            }
            i = i + 1;
        }
        None
    }
}

/// Address of a PCM source that the host owns and manages. It is checked against the
/// host whenever the source is reached through it.
#[derive(Clone, Copy, Debug, PartialEq, Eq, Structural, Hash)]
pub struct ReaperSource {
    pub raw: PcmSource,
}

/// A PCM source that somebody else owns. It cannot be freed through this value, and a
/// copy of the source is made only by asking the host for one.
#[derive(Debug, PartialEq, Eq, Structural, Hash)]
pub struct BorrowedSource {
    pub raw: PcmSource,
}

/// A PCM source that this side owns alone and has to free once. The address is out of
/// reach: the only ways out of the value are [`OwnedSource::release`] and
/// [`OwnedSource::into_raw`], and both use it up.
#[derive(Debug)]
pub struct OwnedSource {
    raw: PcmSource,
}

/// What every operation on a source checks first: a missing entry point, then a dead
/// address.
pub open spec fn spec_check_source(reaper: Reaper, source: PcmSource) -> Result<int, ReaperError> {
    if !reaper.spec_has(HostFunction::ValidatePtr2) {
        Err(ReaperError::MissingHostFunction)
    } else {
        match reaper.spec_find_source(source) {
            Some(i) => Ok(i),
            None => Err(ReaperError::UseAfterInvalidation),
        }
    }
}

impl ReaperSource {
    pub fn new(raw: PcmSource) -> (source: ReaperSource)
        ensures
            source.raw == raw,
    {
        ReaperSource { raw }
    }

    pub fn raw(&self) -> (raw: PcmSource)
        ensures
            raw == self.raw,
    {
        self.raw
    }

    /// Whether the host knows the source now, in any project or in none.
    pub fn is_valid(&self, reaper: &Reaper) -> (r: Result<bool, ReaperError>)
        requires
            reaper.wf(),
        ensures
            r == if reaper.spec_has(HostFunction::ValidatePtr2) {
                Ok::<bool, ReaperError>(reaper.spec_find_source(self.raw) is Some)
            } else {
                Err::<bool, ReaperError>(ReaperError::MissingHostFunction)
            },
    {
        if !reaper.has(HostFunction::ValidatePtr2) {
            return Err(ReaperError::MissingHostFunction);
        }
        Ok(reaper.find_source(self.raw).is_some())
    }

    /// Whether the host knows the source now as one of the given project.
    pub fn is_valid_in_project(&self, reaper: &Reaper, project: Project) -> (r: Result<
        bool,
        ReaperError,
    >)
        requires
            reaper.wf(),
        ensures
            r == if reaper.spec_has(HostFunction::ValidatePtr2) {
                Ok::<bool, ReaperError>(
                    reaper.spec_find_source(self.raw) matches Some(i) && reaper.sources@[i].project
                        == Some(project.rea_project),
                )
            } else {
                Err::<bool, ReaperError>(ReaperError::MissingHostFunction)
            },
    {
        if !reaper.has(HostFunction::ValidatePtr2) {
            return Err(ReaperError::MissingHostFunction);
        }
        match reaper.find_source(self.raw) {
            Some(i) => match reaper.sources[i].project {
                Some(p) => Ok(p == project.get_rea_project()),
                None => Ok(false),
            },
            None => Ok(false),
        }
    }

    /// The source for use, if the host knows it now. `UseAfterInvalidation` where it
    /// does not: a dead address is never handed on.
    pub fn as_ref(&self, reaper: &Reaper) -> (r: Result<BorrowedSource, ReaperError>)
        requires
            reaper.wf(),
        ensures
            r == match spec_check_source(*reaper, self.raw) {
                Ok(_) => Ok::<BorrowedSource, ReaperError>(BorrowedSource { raw: self.raw }),
                Err(e) => Err::<BorrowedSource, ReaperError>(e),
            },
    {
        match self.is_valid(reaper) {
            Err(e) => Err(e),
            Ok(true) => Ok(BorrowedSource { raw: self.raw }),
            Ok(false) => Err(ReaperError::UseAfterInvalidation),
        }
    }
}

impl BorrowedSource {
    /// Looks the source up in the host as it is now.
    pub fn state<'a>(&self, reaper: &'a Reaper) -> (r: Result<&'a SourceState, ReaperError>)
        requires
            reaper.wf(),
        ensures
            match spec_check_source(*reaper, self.raw) {
                Ok(i) => r == Ok::<&SourceState, ReaperError>(&reaper.sources@[i]),
                Err(e) => r == Err::<&SourceState, ReaperError>(e),
            },
    {
        if !reaper.has(HostFunction::ValidatePtr2) {
            return Err(ReaperError::MissingHostFunction);
        }
        match reaper.find_source(self.raw) {
            Some(i) => Ok(&reaper.sources[i]),
            None => Err(ReaperError::UseAfterInvalidation),
        }
    }

    pub fn file_name(&self, reaper: &Reaper) -> (r: Result<Option<String>, ReaperError>)
        requires
            reaper.wf(),
        ensures
            match spec_check_source(*reaper, self.raw) {
                Ok(i) => r == Ok::<Option<String>, ReaperError>(reaper.sources@[i].file_name),
                Err(e) => r == Err::<Option<String>, ReaperError>(e),
            },
    {
        match self.state(reaper) {
            Ok(state) => match &state.file_name {
                Some(name) => Ok(Some(name.clone())),
                None => Ok(None),
            },
            Err(e) => Err(e),
        }
    }

    /// The kind of the source as the host names it.
    pub fn source_type(&self, reaper: &Reaper) -> (r: Result<String, ReaperError>)
        requires
            reaper.wf(),
        ensures
            match spec_check_source(*reaper, self.raw) {
                Ok(i) => r == Ok::<String, ReaperError>(reaper.sources@[i].source_type),
                Err(e) => r == Err::<String, ReaperError>(e),
            },
    {
        match self.state(reaper) {
            Ok(state) => Ok(state.source_type.clone()),
            Err(e) => Err(e),
        }
    }

    /// Identity of the pooled MIDI data that the source plays. `Unavailable` where the
    /// source plays none.
    pub fn pooled_midi_id(&self, reaper: &Reaper) -> (r: Result<Guid, ReaperError>)
        requires
            reaper.wf(),
        ensures
            r == match spec_check_source(*reaper, self.raw) {
                Ok(i) => match reaper.sources@[i].pooled_midi_id {
                    Some(id) => Ok::<Guid, ReaperError>(id),
                    None => Err::<Guid, ReaperError>(ReaperError::Unavailable),
                },
                Err(e) => Err::<Guid, ReaperError>(e),
            },
    {
        match self.state(reaper) {
            Ok(state) => match state.pooled_midi_id {
                Some(id) => Ok(id),
                None => Err(ReaperError::Unavailable),
            },
            Err(e) => Err(e),
        }
    }

    /// Asks the host to write the source to a file.
    pub fn export_to_file(&self, reaper: &Reaper, file: &str) -> (r: Result<HostRequest, ReaperError>)
        requires
            reaper.wf(),
        ensures
            match spec_check_source(*reaper, self.raw) {
                Ok(_) => r matches Ok(HostRequest::ExportSourceToFile { source, file: path })
                    && source == self.raw && path@ == file@,
                Err(e) => r == Err::<HostRequest, ReaperError>(e),
            },
    {
        match self.state(reaper) {
            Ok(_) => Ok(HostRequest::ExportSourceToFile { source: self.raw, file: file.to_owned() }),
            Err(e) => Err(e),
        }
    }

    /// The request that asks the host for a copy of the source.
    pub fn duplicate_request(&self, reaper: &Reaper) -> (r: Result<HostRequest, ReaperError>)
        requires
            reaper.wf(),
        ensures
            r == match spec_check_source(*reaper, self.raw) {
                Ok(_) => Ok::<HostRequest, ReaperError>(
                    HostRequest::DuplicateSource { source: self.raw },
                ),
                Err(e) => Err::<HostRequest, ReaperError>(e),
            },
    {
        match self.state(reaper) {
            Ok(_) => Ok(HostRequest::DuplicateSource { source: self.raw }),
            Err(e) => Err(e),
        }
    }

    /// Whether an answer of the host to a duplication request names a copy: an address
    /// that is neither null nor that of the source itself.
    pub open spec fn spec_is_copy(&self, reply: Option<PcmSource>) -> bool {
        reply matches Some(copy) && copy.address != 0 && copy != self.raw
    }

    /// Takes over the copy that the host made on a duplication request. Where the host
    /// answered with nothing, the source cannot be copied. An answer that names the
    /// source itself is no copy either: taking it over would free a source that is not
    /// owned.
    pub fn duplicate(&self, reply: Option<PcmSource>) -> (r: Result<OwnedSource, ReaperError>)
        ensures
            self.spec_is_copy(reply) ==> (r matches Ok(owned) && Some(owned.spec_raw()) == reply),
            !self.spec_is_copy(reply) ==> (r matches Err(e) && e
                == ReaperError::DuplicationUnsupported),
    {
        match reply {
            Some(copy) => {
                if copy.address != 0 && copy != self.raw {
                    Ok(OwnedSource { raw: copy })
                } else {
                    Err(ReaperError::DuplicationUnsupported)
                }
            },
            None => Err(ReaperError::DuplicationUnsupported),
        }
    }

    /// The source from which this one is made, if there is one. Nothing says whether
    /// the host manages it.
    pub fn parent_source(&self, reaper: &Reaper) -> (r: Result<Option<PcmSource>, ReaperError>)
        requires
            reaper.wf(),
        ensures
            r == match spec_check_source(*reaper, self.raw) {
                Ok(i) => Ok::<Option<PcmSource>, ReaperError>(reaper.sources@[i].parent),
                Err(e) => Err::<Option<PcmSource>, ReaperError>(e),
            },
    {
        match self.state(reaper) {
            Ok(state) => Ok(state.parent),
            Err(e) => Err(e),
        }
    }

    /// The source at the end of the chain of parents. The chain is followed for as many
    /// links as the host has sources, which is the whole chain unless it runs in a
    /// circle.
    #[verifier::loop_isolation(false)]
    pub fn root_source(&self, reaper: &Reaper) -> (r: Result<PcmSource, ReaperError>)
        requires
            reaper.wf(),
        ensures
            r == match spec_check_source(*reaper, self.raw) {
                Ok(_) => Ok::<PcmSource, ReaperError>(
                    spec_root_within(reaper.sources@, self.raw, reaper.sources@.len()),
                ),
                Err(e) => Err::<PcmSource, ReaperError>(e),
            },
    {
        match self.state(reaper) {
            Ok(_) => {},
            Err(e) => {
                return Err(e);
            },
        }
        let mut source_ptr = self.raw;
        let mut steps: usize = reaper.sources.len();
        while steps > 0
            invariant
                spec_root_within(reaper.sources@, source_ptr, steps as nat) == spec_root_within(
                    reaper.sources@,
                    self.raw,
                    reaper.sources@.len(),
                ),
            decreases steps,
        {
            match reaper.find_source(source_ptr) {
                Some(i) => match reaper.sources[i].parent {
                    Some(parent) => {
                        source_ptr = parent;
                        steps = steps - 1;
                    },
                    None => {
                        return Ok(source_ptr);
                    },
                },
                None => {
                    return Ok(source_ptr);
                },
            }
        }
        Ok(source_ptr)
    }

    /// The state of the source as text: the host's records, one per line.
    pub fn state_chunk(&self, reaper: &Reaper) -> (r: Result<Vec<u8>, ReaperError>)
        requires
            reaper.wf(),
        ensures
            match spec_check_source(*reaper, self.raw) {
                Ok(i) => r matches Ok(text) && text@ == spec_nul_to_newline(
                    reaper.sources@[i].state@,
                ),
                Err(e) => r == Err::<Vec<u8>, ReaperError>(e),
            },
    {
        match self.state(reaper) {
            Ok(state) => Ok(nul_to_newline(state.state.as_slice())),
            Err(e) => Err(e),
        }
    }

    /// Asks the host to load the source's state from a text: the buffer of the request
    /// holds the text's bytes with every newline turned into a NUL byte.
    pub fn set_state_chunk(&self, reaper: &Reaper, chunk: String) -> (r: Result<
        HostRequest,
        ReaperError,
    >)
        requires
            reaper.wf(),
        ensures
            match spec_check_source(*reaper, self.raw) {
                Ok(_) => r matches Ok(HostRequest::LoadSourceState { source, buffer }) && source
                    == self.raw && buffer@ == spec_newline_to_nul(
                    vstd::utf8::encode_utf8(chunk@),
                ),
                Err(e) => r == Err::<HostRequest, ReaperError>(e),
            },
    {
        match self.state(reaper) {
            Ok(_) => {
                let buffer = newline_to_nul(chunk.as_str().as_bytes());
                Ok(HostRequest::LoadSourceState { source: self.raw, buffer })
            },
            Err(e) => Err(e),
        }
    }
}

impl OwnedSource {
    /// The address of the source that is owned.
    pub closed spec fn spec_raw(&self) -> PcmSource {
        self.raw
    }

    /// Takes over a source that the host made for this side, on a request to create
    /// one. Nothing else may be handed in: whatever is handed in is freed in the end.
    pub fn new(raw: PcmSource) -> (owned: OwnedSource)
        ensures
            owned.spec_raw() == raw,
    {
        OwnedSource { raw }
    }

    /// Gives the source up, with the duty to free it.
    pub fn into_raw(self) -> (raw: PcmSource)
        ensures
            raw == self.spec_raw(),
    {
        self.raw
    }

    /// Takes over the source that the host made from a file. The host answers with
    /// nothing where it could not make one.
    pub fn from_file(reply: Option<PcmSource>) -> (r: Result<OwnedSource, &'static str>)
        ensures
            match reply {
                Some(raw) => r matches Ok(owned) && owned.spec_raw() == raw,
                None => r matches Err(text) && text@ == "couldn't create PCM source"@,
            },
    {
        match reply {
            Some(raw) => Ok(OwnedSource { raw }),
            None => Err("couldn't create PCM source"),
        }
    }

    /// The source for use while it is owned.
    pub fn as_ref(&self) -> (borrowed: BorrowedSource)
        ensures
            borrowed.raw == self.spec_raw(),
    {
        BorrowedSource { raw: self.raw }
    }

    /// Frees the source. The value is used up, so a source is freed once and is not
    /// used after that.
    pub fn release(self) -> (request: HostRequest)
        ensures
            request == (HostRequest::ReleaseSource { source: self.spec_raw() }),
    {
        HostRequest::ReleaseSource { source: self.raw }
    }
}

/// A copy tells of the same state as its original, right after it was made. Whenever
/// the host holds the same state for two live sources, `state_chunk` gives the same
/// text for both.
pub proof fn lemma_copy_exports_the_same_text(reaper: Reaper, original: PcmSource, copy: PcmSource)
    requires
        reaper.spec_find_source(original) matches Some(i) && reaper.spec_find_source(copy) matches Some(
            j,
        ) && reaper.sources@[i].state@ == reaper.sources@[j].state@,
    ensures
        reaper.spec_source_text(copy) == reaper.spec_source_text(original),
        reaper.spec_source_text(copy) is Some,
{
}

/// Right after the host has made a copy, the copy tells of the same state as the
/// source that it was made from, and that source tells of what it told before. Where
/// the host's sources change as [`is_after_duplicate`] says, `state_chunk` gives the same
/// text for both.
pub proof fn lemma_fresh_copy_exports_the_same_text(
    before: Reaper,
    after: Reaper,
    made_from: PcmSource,
    copy: PcmSource,
)
    requires
        is_after_duplicate(before.sources@, after.sources@, made_from, copy),
    ensures
        copy != made_from,
        after.spec_source_text(copy) is Some,
        after.spec_source_text(copy) == after.spec_source_text(made_from),
        after.spec_source_text(made_from) == before.spec_source_text(made_from),
{
    let old_sources = before.sources@;
    let new_sources = after.sources@;
    lemma_first_index(old_sources, source_at(made_from));
    lemma_first_index(old_sources, source_at(copy));
    lemma_first_index(new_sources, source_at(made_from));
    lemma_first_index(new_sources, source_at(copy));
    let i = first_index(old_sources, source_at(made_from))->0;
    assert(source_at(made_from)(new_sources[i]));
    assert(source_at(copy)(new_sources[old_sources.len() as int]));
    assert forall|k: int| 0 <= k < old_sources.len() implies !source_at(copy)(
        #[trigger] new_sources[k],
    ) by {
        assert(new_sources[k] == old_sources[k]);
        assert(!source_at(copy)(old_sources[k]));
    }
    assert forall|k: int| 0 <= k < i implies !source_at(made_from)(#[trigger] new_sources[k]) by {
        assert(new_sources[k] == old_sources[k]);
        assert(!source_at(made_from)(old_sources[k]));
    }
}

/// Loading a state into one source leaves every other source as it was: where the
/// host's sources change as [`is_after_load`] says, a source at another address tells of
/// the same state before and after.
pub proof fn lemma_load_leaves_other_sources_alone(
    before: Reaper,
    after: Reaper,
    loaded: PcmSource,
    buffer: Seq<u8>,
    other: PcmSource,
)
    requires
        is_after_load(before.sources@, after.sources@, loaded, buffer),
        other != loaded,
    ensures
        after.spec_source_text(other) == before.spec_source_text(other),
{
    lemma_first_index(before.sources@, source_at(other));
    lemma_first_index(after.sources@, source_at(other));
    match first_index(before.sources@, source_at(other)) {
        Some(i) => {
            assert(source_at(other)(after.sources@[i]));
            match first_index(after.sources@, source_at(other)) {
                Some(j) => {
                    assert(source_at(other)(before.sources@[j]));
                },
                None => {},
            }
        },
        None => {
            match first_index(after.sources@, source_at(other)) {
                Some(j) => {
                    assert(source_at(other)(before.sources@[j]));
                },
                None => {},
            }
        },
    }
}

/// A copy is a source of its own: loading a state into the copy leaves the source that
/// it was made from as it was. `duplicate` hands out a copy only at another address
/// than the source's own, and the load request of `set_state_chunk` names the address
/// of the source that it is called on.
pub proof fn lemma_copy_is_independent(
    source: BorrowedSource,
    copy: PcmSource,
    before: Reaper,
    after: Reaper,
    buffer: Seq<u8>,
)
    requires
        source.spec_is_copy(Some(copy)),
        is_after_load(before.sources@, after.sources@, copy, buffer),
    ensures
        after.spec_source_text(source.raw) == before.spec_source_text(source.raw),
{
    lemma_load_leaves_other_sources_alone(before, after, copy, buffer, source.raw);
}

/// A text without NUL bytes that is loaded into a live source is the text that the
/// source tells of afterwards. Where the host's sources change as [`is_after_load`]
/// says on the buffer that `set_state_chunk` makes from the text, `state_chunk` gives
/// the text back.
pub proof fn lemma_loaded_text_is_exported(
    before: Reaper,
    after: Reaper,
    source: PcmSource,
    text: Seq<u8>,
)
    requires
        is_free_of(text, NUL),
        before.spec_find_source(source) is Some,
        is_after_load(before.sources@, after.sources@, source, spec_newline_to_nul(text)),
    ensures
        after.spec_source_text(source) == Some(text),
{
    lemma_first_index(before.sources@, source_at(source));
    lemma_first_index(after.sources@, source_at(source));
    let i = first_index(before.sources@, source_at(source))->0;
    assert(source_at(source)(after.sources@[i]));
    let j = first_index(after.sources@, source_at(source))->0;
    assert(source_at(source)(before.sources@[j]));
    lemma_text_survives_round_trip(text);
}

} // verus!
