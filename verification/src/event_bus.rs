//! Subscribers per kind of event, and the hooks of the host that are published to them.

use crate::search::{first_index, first_index_from, lemma_first_index};
use vstd::prelude::*;

verus! {

/// The kinds of event that subscribers can ask for.
#[derive(Clone, Copy, Debug, PartialEq, Eq, Structural, Hash)]
pub enum EventKind {
    MainThreadIdle,
    ProjectSwitched,
    TrackListChanged,
    TrackVolumeChanged,
    TrackPanChanged,
    TrackMuteChanged,
    TrackSelectedChanged,
    TrackSoloChanged,
    TrackArmChanged,
    TrackNameChanged,
}

/// The entry points that the host calls on the main thread: `Run` once per cycle, the
/// others when something happened.
#[derive(Clone, Copy, Debug, PartialEq, Eq, Structural, Hash)]
pub enum HostHook {
    Run,
    ProjectSwitched,
    SetTrackListChange,
    SetSurfaceVolume,
    SetSurfacePan,
    SetSurfaceMute,
    SetSurfaceSelected,
    SetSurfaceSolo,
    SetSurfaceRecArm,
    SetTrackTitle,
}

/// The one event kind that a hook of the host is published as.
pub open spec fn spec_event_for_hook(hook: HostHook) -> EventKind {
    match hook {
        HostHook::Run => EventKind::MainThreadIdle,
        HostHook::ProjectSwitched => EventKind::ProjectSwitched,
        HostHook::SetTrackListChange => EventKind::TrackListChanged,
        HostHook::SetSurfaceVolume => EventKind::TrackVolumeChanged,
        HostHook::SetSurfacePan => EventKind::TrackPanChanged,
        HostHook::SetSurfaceMute => EventKind::TrackMuteChanged,
        HostHook::SetSurfaceSelected => EventKind::TrackSelectedChanged,
        HostHook::SetSurfaceSolo => EventKind::TrackSoloChanged,
        HostHook::SetSurfaceRecArm => EventKind::TrackArmChanged,
        HostHook::SetTrackTitle => EventKind::TrackNameChanged,
    }
}

#[verifier::when_used_as_spec(spec_event_for_hook)]
pub fn event_for_hook(hook: HostHook) -> (kind: EventKind)
    ensures
        kind == spec_event_for_hook(hook),
{
    match hook {
        HostHook::Run => EventKind::MainThreadIdle,
        HostHook::ProjectSwitched => EventKind::ProjectSwitched,
        HostHook::SetTrackListChange => EventKind::TrackListChanged,
        HostHook::SetSurfaceVolume => EventKind::TrackVolumeChanged,
        HostHook::SetSurfacePan => EventKind::TrackPanChanged,
        HostHook::SetSurfaceMute => EventKind::TrackMuteChanged,
        HostHook::SetSurfaceSelected => EventKind::TrackSelectedChanged,
        HostHook::SetSurfaceSolo => EventKind::TrackSoloChanged,
        HostHook::SetSurfaceRecArm => EventKind::TrackArmChanged,
        HostHook::SetTrackTitle => EventKind::TrackNameChanged,
    }
}

/// No two hooks are published as the same kind of event.
pub proof fn lemma_hooks_map_one_to_one(a: HostHook, b: HostHook)
    requires
        spec_event_for_hook(a) == spec_event_for_hook(b),
    ensures
        a == b,
{
}

/// One subscriber's wish to hear of one kind of event. The caller keeps the token and
/// unsubscribes with it.
#[derive(Clone, Copy, Debug, PartialEq, Eq, Structural)]
pub struct Subscription {
    pub token: u64,
    pub kind: EventKind,
}

/// The subscribers of all event kinds in the order in which they subscribed. Used on
/// the main thread only.
#[derive(Debug)]
pub struct EventBus {
    pub subscriptions: Vec<Subscription>,
    pub next_token: u64,
}

/// Subscriptions with this token.
pub open spec fn has_token(token: u64) -> spec_fn(Subscription) -> bool {
    |s: Subscription| s.token == token
}

/// The tokens of the subscribers of a kind, in the order in which they subscribed.
pub open spec fn recipients(subscriptions: Seq<Subscription>, kind: EventKind) -> Seq<u64>
    decreases subscriptions.len(),
{
    if subscriptions.len() == 0 {
        Seq::empty()
    } else if subscriptions.last().kind == kind {
        recipients(subscriptions.drop_last(), kind).push(subscriptions.last().token)
    } else {
        recipients(subscriptions.drop_last(), kind)
    }
}

/// The subscriptions without the one that has the token.
pub open spec fn without_token(subscriptions: Seq<Subscription>, token: u64) -> Seq<Subscription> {
    match first_index(subscriptions, has_token(token)) {
        Some(i) => subscriptions.remove(i),
        None => subscriptions,
    }
}

impl View for EventBus {
    type V = Seq<Subscription>;

    open spec fn view(&self) -> Seq<Subscription> {
        self.subscriptions@
    }
}

impl EventBus {
    /// Tokens grow in the order of subscription and stay below the next token, so no
    /// token is handed out twice.
    pub open spec fn wf(&self) -> bool {
        &&& forall|i: int| 0 <= i < self@.len() ==> (#[trigger] self@[i]).token < self.next_token
        &&& forall|i: int, j: int|
            0 <= i < j < self@.len() ==> (#[trigger] self@[i]).token < (#[trigger] self@[j]).token
    }

    pub fn new() -> (bus: EventBus)
        ensures
            bus.wf(),
            bus@.len() == 0,
            bus.next_token == 0,
    {
        EventBus { subscriptions: Vec::new(), next_token: 0 }
    }

    /// Adds a subscriber for a kind of event, after all that are there, and hands out
    /// its token. `None`, and no change, only when every token has been handed out.
    pub fn subscribe(&mut self, kind: EventKind) -> (token: Option<u64>)
        requires
            old(self).wf(),
        ensures
            final(self).wf(),
            old(self).next_token == u64::MAX ==> token is None && *final(self) == *old(self),
            old(self).next_token < u64::MAX ==> token == Some(old(self).next_token) && final(self).next_token == old(self).next_token + 1 && final(self)@ == old(self)@.push(
                Subscription { token: old(self).next_token, kind },
            ),
    {
        if self.next_token == u64::MAX {
            return None;
        }
        let token = self.next_token;
        self.subscriptions.push(Subscription { token, kind });
        self.next_token = token + 1;
        Some(token)
    }

    /// Takes out the subscriber with the token and tells whether there was one. The
    /// others stay in their order.
    pub fn unsubscribe(&mut self, token: u64) -> (found: bool)
        requires
            old(self).wf(),
        ensures
            final(self).wf(),
            final(self).next_token == old(self).next_token,
            final(self)@ == without_token(old(self)@, token),
            found == (first_index(old(self)@, has_token(token)) is Some),
    {
        let mut i: usize = 0;
        while i < self.subscriptions.len()
            invariant
                i <= self@.len(),
                *self == *old(self),
                self.wf(),
                first_index_from(self@, has_token(token), i as int) == first_index(
                    self@,
                    has_token(token),
                ),
            decreases self@.len() - i,
        {
            if self.subscriptions[i].token == token {
                self.subscriptions.remove(i);
                proof {
                    let before = old(self)@;
                    let after = self@;
                    assert forall|k: int| 0 <= k < after.len() implies (#[trigger] after[k]).token
                        < self.next_token by {
                        if k < i {
                            assert(after[k] == before[k]);
                        } else {
                            assert(after[k] == before[k + 1]);
                        }
                    }
                    assert forall|k: int, l: int| 0 <= k < l < after.len() implies (
                    #[trigger] after[k]).token < (#[trigger] after[l]).token by {
                        let k0 = if k < i { k } else { k + 1 };
                        let l0 = if l < i { l } else { l + 1 };
                        assert(after[k] == before[k0]);
                        assert(after[l] == before[l0]);
                    }
                }
                return true;
            }
            i = i + 1;
        }
        false
    }

    /// The subscribers that are to hear of an event of the kind, in the order in which
    /// they subscribed. The list is made before any of them is told: what a subscriber
    /// does when it is told, failing or unsubscribing, takes nobody off the list.
    pub fn publish(&self, kind: EventKind) -> (tokens: Vec<u64>)
        ensures
            tokens@ == recipients(self@, kind),
    {
        let mut tokens: Vec<u64> = Vec::new();
        let mut i: usize = 0;
        assert(self@.take(0) =~= Seq::empty());
        while i < self.subscriptions.len()
            invariant
                i <= self@.len(),
                tokens@ == recipients(self@.take(i as int), kind),
            decreases self@.len() - i,
        {
            proof {
                assert(self@.take(i + 1).drop_last() =~= self@.take(i as int));
                assert(self@.take(i + 1).last() == self@[i as int]);
            }
            if self.subscriptions[i].kind == kind {
                tokens.push(self.subscriptions[i].token);
            }
            i = i + 1;
        }
        assert(self@.take(i as int) =~= self@);
        tokens
    }

    /// The subscribers that are to hear of a hook of the host: those of the one kind of
    /// event that the hook is published as.
    pub fn on_hook(&self, hook: HostHook) -> (tokens: Vec<u64>)
        ensures
            tokens@ == recipients(self@, spec_event_for_hook(hook)),
    {
        self.publish(event_for_hook(hook))
    }
}

/// A new subscriber is told last of its kind, and the other kinds do not notice it.
pub proof fn lemma_recipients_after_subscribe(
    subscriptions: Seq<Subscription>,
    added: Subscription,
    kind: EventKind,
)
    ensures
        recipients(subscriptions.push(added), kind) == if added.kind == kind {
            recipients(subscriptions, kind).push(added.token)
        } else {
            recipients(subscriptions, kind)
        },
{
    assert(subscriptions.push(added).drop_last() =~= subscriptions);
}

/// Those who are told of an event are told in the order of their tokens, so nobody is
/// told twice.
pub proof fn lemma_recipients_are_told_once(bus: EventBus, kind: EventKind)
    requires
        bus.wf(),
    ensures
        forall|i: int, j: int|
            0 <= i < j < recipients(bus@, kind).len() ==> (#[trigger] recipients(bus@, kind)[i])
                < (#[trigger] recipients(bus@, kind)[j]),
        forall|i: int|
            0 <= i < recipients(bus@, kind).len() ==> (#[trigger] recipients(bus@, kind)[i])
                < bus.next_token,
{
    lemma_recipients_grow(bus@, kind, bus.next_token);
}

/// Tokens that grow along the subscriptions grow along the recipients.
pub proof fn lemma_recipients_grow(subscriptions: Seq<Subscription>, kind: EventKind, bound: u64)
    requires
        forall|i: int| 0 <= i < subscriptions.len() ==> (#[trigger] subscriptions[i]).token < bound,
        forall|i: int, j: int|
            0 <= i < j < subscriptions.len() ==> (#[trigger] subscriptions[i]).token
                < (#[trigger] subscriptions[j]).token,
    ensures
        forall|i: int, j: int|
            0 <= i < j < recipients(subscriptions, kind).len() ==> (#[trigger] recipients(
                subscriptions,
                kind,
            )[i]) < (#[trigger] recipients(subscriptions, kind)[j]),
        forall|i: int|
            0 <= i < recipients(subscriptions, kind).len() ==> (#[trigger] recipients(
                subscriptions,
                kind,
            )[i]) < bound,
    decreases subscriptions.len(),
{
    if subscriptions.len() > 0 {
        let rest = subscriptions.drop_last();
        let last = subscriptions.last();
        assert(last == subscriptions[subscriptions.len() - 1]);
        assert forall|i: int| 0 <= i < rest.len() implies (#[trigger] rest[i]).token
            < last.token by {
            assert(rest[i] == subscriptions[i]);
            assert(subscriptions[i].token < subscriptions[subscriptions.len() - 1].token);
        }
        assert forall|i: int| 0 <= i < rest.len() implies (#[trigger] rest[i]).token < bound by {
            assert(rest[i] == subscriptions[i]);
        }
        assert forall|i: int, j: int| 0 <= i < j < rest.len() implies (#[trigger] rest[i]).token < (
        #[trigger] rest[j]).token by {
            assert(rest[i] == subscriptions[i]);
            assert(rest[j] == subscriptions[j]);
        }
        lemma_recipients_grow(rest, kind, last.token);
        lemma_recipients_grow(rest, kind, bound);
        let told = recipients(subscriptions, kind);
        let told_before = recipients(rest, kind);
        assert forall|i: int| 0 <= i < told.len() implies (#[trigger] told[i]) < bound by {
            if i < told_before.len() {
                assert(told[i] == told_before[i]);
            }
        }
        assert forall|i: int, j: int| 0 <= i < j < told.len() implies (#[trigger] told[i]) < (
        #[trigger] told[j]) by {
            assert(told[i] == told_before[i]);
            if j < told_before.len() {
                assert(told[j] == told_before[j]);
            }
        }
    }
}

/// Two subscribers of one kind are both told of an event of that kind, each once, the
/// first before the second, after all that subscribed before them. Starting from a bus
/// with room for two more tokens, subscribe twice for `kind`: the recipients of `kind`
/// are then the recipients from before, the first token and the second token, in that
/// order, and the two tokens differ from each other and from every token before them.
pub proof fn lemma_two_subscribers_are_told_in_order(bus: EventBus, kind: EventKind)
    requires
        bus.wf(),
        bus.next_token + 1 < u64::MAX,
    ensures
        ({
            let first = Subscription { token: bus.next_token, kind };
            let second = Subscription { token: (bus.next_token + 1) as u64, kind };
            let told = recipients(bus@.push(first).push(second), kind);
            let before = recipients(bus@, kind);
            &&& told == before.push(first.token).push(second.token)
            &&& first.token != second.token
            &&& forall|i: int|
                0 <= i < before.len() ==> #[trigger] before[i] != first.token && before[i]
                    != second.token
        }),
{
    let first = Subscription { token: bus.next_token, kind };
    let second = Subscription { token: (bus.next_token + 1) as u64, kind };
    lemma_recipients_after_subscribe(bus@, first, kind);
    lemma_recipients_after_subscribe(bus@.push(first), second, kind);
    lemma_recipients_are_told_once(bus, kind);
}

/// The recipients of two runs of subscriptions, one after the other, are the recipients
/// of the first run followed by those of the second.
pub proof fn lemma_recipients_of_concatenation(
    front: Seq<Subscription>,
    back: Seq<Subscription>,
    kind: EventKind,
)
    ensures
        recipients(front + back, kind) == recipients(front, kind) + recipients(back, kind),
    decreases back.len(),
{
    if back.len() == 0 {
        assert(front + back =~= front);
        assert(recipients(front, kind) + recipients(back, kind) =~= recipients(front, kind));
    } else {
        lemma_recipients_of_concatenation(front, back.drop_last(), kind);
        assert((front + back).drop_last() =~= front + back.drop_last());
        assert((front + back).last() == back.last());
        if back.last().kind == kind {
            assert(recipients(front, kind) + recipients(back.drop_last(), kind).push(
                back.last().token,
            ) =~= (recipients(front, kind) + recipients(back.drop_last(), kind)).push(
                back.last().token,
            ));
        }
    }
}

/// A subscriber that leaves takes nobody with it: those that subscribed before it and
/// those that subscribed after it are told as before, in their order.
pub proof fn lemma_unsubscribe_keeps_the_others(bus: EventBus, token: u64, kind: EventKind)
    requires
        bus.wf(),
        first_index(bus@, has_token(token)) is Some,
    ensures
        ({
            let i = first_index(bus@, has_token(token))->0;
            recipients(without_token(bus@, token), kind) == recipients(bus@.take(i), kind)
                + recipients(bus@.skip(i + 1), kind)
        }),
        ({
            let i = first_index(bus@, has_token(token))->0;
            recipients(bus@, kind) == recipients(bus@.take(i), kind) + recipients(
                seq![bus@[i]],
                kind,
            ) + recipients(bus@.skip(i + 1), kind)
        }),
{
    lemma_first_index(bus@, has_token(token));
    let i = first_index(bus@, has_token(token))->0;
    assert(bus@.remove(i) =~= bus@.take(i) + bus@.skip(i + 1));
    lemma_recipients_of_concatenation(bus@.take(i), bus@.skip(i + 1), kind);
    assert(bus@ =~= bus@.take(i) + seq![bus@[i]] + bus@.skip(i + 1));
    lemma_recipients_of_concatenation(bus@.take(i), seq![bus@[i]], kind);
    lemma_recipients_of_concatenation(bus@.take(i) + seq![bus@[i]], bus@.skip(i + 1), kind);
}

} // verus!
