//! Recent events of each user, kept for clients that reconnect.

use crate::event_id;
use crate::event_id::{is_event_after, parse_event_id};
use crate::text::copy_text;
use std::collections::VecDeque;
use std::sync::Arc;
use vstd::hash_map::StringHashMap;
use vstd::prelude::*;

verus! {

/// How many events are kept for one user. A chat turn emits some 5 to 20
/// events, so that this covers the most recent turns.
pub const REPLAY_BUFFER_CAP: usize = 50;

/// An event with its id and its scope.
///
/// `user_id` is `None` for a global event, which goes to all subscribers, and
/// names the one user who may see the event otherwise.
pub struct ScopedEvent<E> {
    pub id: String,
    pub user_id: Option<String>,
    pub event: Arc<E>,
}

/// [`ScopedEvent`] as contracts speak of it.
pub struct EventModel<E> {
    pub id: Seq<char>,
    pub user_id: Option<Seq<char>>,
    pub event: E,
}

impl<E> View for ScopedEvent<E> {
    type V = EventModel<E>;

    open spec fn view(&self) -> EventModel<E> {
        EventModel { id: self.id@, user_id: self.user_id.deep_view(), event: *self.event }
    }
}

/// `Arc::clone` of the standard library: another handle on the same value.
#[verifier::external_body]
fn share<E>(event: &Arc<E>) -> (r: Arc<E>)
    ensures
        *r == **event,
{
    Arc::clone(event)
}

impl<E> ScopedEvent<E> {
    /// Another handle on the same event.
    pub fn duplicate(&self) -> (r: ScopedEvent<E>)
        ensures
            r@ == self@,
            r.id@ == self.id@ && r.user_id.deep_view() == self.user_id.deep_view() && *r.event
                == *self.event,
    {
        ScopedEvent {
            id: self.id.clone(),
            user_id: copy_text(&self.user_id),
            event: share(&self.event),
        }
    }
}

/// Events as contracts speak of them.
pub open spec fn event_models<E>(events: Seq<ScopedEvent<E>>) -> Seq<EventModel<E>> {
    events.map_values(|e: ScopedEvent<E>| e@)
}

/// The last [`REPLAY_BUFFER_CAP`] of `events`.
pub open spec fn capped<E>(events: Seq<EventModel<E>>) -> Seq<EventModel<E>> {
    if events.len() > REPLAY_BUFFER_CAP {
        events.skip(events.len() - REPLAY_BUFFER_CAP)
    } else {
        events
    }
}

/// The events kept for `user`.
pub open spec fn kept<E>(buffers: Map<Seq<char>, Seq<EventModel<E>>>, user: Seq<char>) -> Seq<
    EventModel<E>,
> {
    if buffers.contains_key(user) {
        buffers[user]
    } else {
        Seq::empty()
    }
}

/// Those of `events` that a client which last saw `last` has yet to see.
pub open spec fn unseen<E>(events: Seq<EventModel<E>>, last: Option<Seq<char>>) -> Seq<
    EventModel<E>,
> {
    events.filter(|e: EventModel<E>| event_id::event_after(last, e.id))
}

/// The highest sequence number among the ids of `events`.
pub open spec fn highest_seq<E>(events: Seq<EventModel<E>>) -> Option<u64>
    decreases events.len(),
{
    if events.len() == 0 {
        None
    } else {
        match (highest_seq(events.drop_last()), event_id::parsed_event_id(events.last().id)) {
            (Some(high), Some((_, seq))) => if seq > high {
                Some(seq)
            } else {
                Some(high)
            },
            (None, Some((_, seq))) => Some(seq),
            (high, None) => high,
        }
    }
}

/// The buffers of all users. Each user has a slot of their own.
pub struct ReplayBuffers<E> {
    slots: StringHashMap<usize>,
    buffers: Vec<VecDeque<ScopedEvent<E>>>,
}

impl<E> View for ReplayBuffers<E> {
    type V = Map<Seq<char>, Seq<EventModel<E>>>;

    closed spec fn view(&self) -> Map<Seq<char>, Seq<EventModel<E>>> {
        self.slots@.map_values(|slot: usize| event_models(self.buffers@[slot as int]@))
    }
}

impl<E> ReplayBuffers<E> {
    /// Every user's slot exists and is theirs alone, and no buffer is too long.
    pub closed spec fn wf(&self) -> bool {
        &&& forall|u: Seq<char>| #[trigger]
            self.slots@.contains_key(u) ==> self.slots@[u] < self.buffers@.len()
        &&& forall|u: Seq<char>, v: Seq<char>|
            #![trigger self.slots@[u], self.slots@[v]]
            self.slots@.contains_key(u) && self.slots@.contains_key(v) && u != v ==> self.slots@[u]
                != self.slots@[v]
        &&& forall|i: int|
            0 <= i < self.buffers@.len() ==> (#[trigger] self.buffers@[i])@.len()
                <= REPLAY_BUFFER_CAP
    }

    /// No user has events yet.
    pub fn new() -> (r: ReplayBuffers<E>)
        ensures
            r.wf(),
            r@ == Map::<Seq<char>, Seq<EventModel<E>>>::empty(),
    {
        let r: ReplayBuffers<E> = ReplayBuffers {
            slots: StringHashMap::new(),
            buffers: Vec::new(),
        };
        assert(r@ =~= Map::<Seq<char>, Seq<EventModel<E>>>::empty());
        r
    }

    /// The slot of `user_id`, made where the user has none.
    fn slot(&mut self, user_id: &str) -> (slot: usize)
        requires
            old(self).wf(),
        ensures
            final(self).wf(),
            final(self).slots@.contains_key(user_id@),
            final(self).slots@[user_id@] == slot,
            slot < final(self).buffers@.len(),
            event_models(final(self).buffers@[slot as int]@) == kept(old(self)@, user_id@),
            final(self)@ == old(self)@.insert(user_id@, kept(old(self)@, user_id@)),
    {
        match self.slots.get(user_id) {
            Some(slot) => {
                let slot: usize = *slot;
                assert(self@ =~= old(self)@.insert(user_id@, kept(old(self)@, user_id@)));
                slot
            },
            None => {
                let slot: usize = self.buffers.len();
                self.buffers.push(VecDeque::new());
                self.slots.insert(user_id.to_owned(), slot);
                assert(event_models(self.buffers@[slot as int]@) =~= Seq::<EventModel<E>>::empty());
                assert(self@ =~= old(self)@.insert(user_id@, kept(old(self)@, user_id@)));
                slot
            },
        }
    }

    /// Add an event to the buffer of `user_id`; the oldest events make room.
    pub fn append_replay(&mut self, user_id: &str, scoped: ScopedEvent<E>)
        requires
            old(self).wf(),
        ensures
            final(self).wf(),
            final(self)@ == old(self)@.insert(
                user_id@,
                capped(kept(old(self)@, user_id@).push(scoped@)),
            ),
    {
        let ghost before = self@;
        let slot: usize = self.slot(user_id);
        let ghost middle = *self;
        let ghost longer = self.buffers@[slot as int]@.push(scoped);
        let buffer: &mut VecDeque<ScopedEvent<E>> = &mut self.buffers[slot];
        buffer.push_back(scoped);
        while buffer.len() > REPLAY_BUFFER_CAP
            invariant
                buffer@.len() <= REPLAY_BUFFER_CAP + 1,
                longer.len() <= REPLAY_BUFFER_CAP + 1,
                buffer@ == longer.skip(longer.len() - buffer@.len()),
                buffer@.len() == longer.len() || buffer@.len() == REPLAY_BUFFER_CAP,
                buffer@.len() <= longer.len(),
            decreases buffer@.len(),
        {
            let _ = buffer.pop_front();
        }
        assert(event_models(longer) =~= kept(before, user_id@).push(scoped@));
        assert(event_models(self.buffers@[slot as int]@) =~= capped(event_models(longer)));
        proof {
            let after = before.insert(user_id@, capped(kept(before, user_id@).push(scoped@)));
            assert forall|u: Seq<char>| #[trigger] self@.contains_key(u) implies after.contains_key(u)
                && self@[u] == after[u] by {
                assert(middle.slots@.contains_key(u));
                assert(middle@.contains_key(u));
                if u != user_id@ {
                    assert(self.buffers@[self.slots@[u] as int]
                        == middle.buffers@[middle.slots@[u] as int]);
                    assert(middle@[u] == before[u]);
                }
            }
            assert forall|u: Seq<char>| #[trigger] after.contains_key(u) implies self@.contains_key(
                u,
            ) by {
                assert(middle@.contains_key(u));
            }
            assert(self@ =~= after);
        }
    }

    /// The events of `user_id` that a client which last saw `last_event_id` has
    /// yet to see, oldest first.
    pub fn snapshot_replay(&self, user_id: &str, last_event_id: Option<&str>) -> (r: Vec<
        ScopedEvent<E>,
    >)
        requires
            self.wf(),
        ensures
            event_models(r@) == unseen(kept(self@, user_id@), last_event_id.deep_view()),
    {
        let mut out: Vec<ScopedEvent<E>> = Vec::new();
        let slot: usize = match self.slots.get(user_id) {
            Some(slot) => *slot,
            None => {
                assert(event_models(out@) =~= Seq::<EventModel<E>>::empty());
                assert(unseen(Seq::<EventModel<E>>::empty(), last_event_id.deep_view())
                    =~= Seq::<EventModel<E>>::empty()) by {
                    reveal(Seq::filter);
                }
                return out;
            },
        };
        let buffer: &VecDeque<ScopedEvent<E>> = &self.buffers[slot];
        let ghost all = event_models(buffer@);
        let mut i: usize = 0;
        assert(unseen(all.take(0), last_event_id.deep_view()) =~= Seq::<EventModel<E>>::empty())
            by {
            reveal(Seq::filter);
        }
        assert(event_models(out@) =~= Seq::<EventModel<E>>::empty());
        while i < buffer.len()
            invariant
                all == event_models(buffer@),
                i <= buffer@.len(),
                event_models(out@) == unseen(all.take(i as int), last_event_id.deep_view()),
            decreases buffer@.len() - i,
        {
            let event: &ScopedEvent<E> = &buffer[i];
            let ghost before = out@;
            proof {
                lemma_unseen_push(all.take(i as int), event@, last_event_id.deep_view());
                assert(all.take(i + 1) =~= all.take(i as int).push(event@));
            }
            if is_event_after(last_event_id, event.id.as_str()) {
                out.push(event.duplicate());
                assert(event_models(out@) =~= event_models(before).push(event@));
            }
            i = i + 1;
        }
        assert(all.take(i as int) =~= all);
        assert(self@[user_id@] == all);
        out
    }
}

/// One more event is unseen or not by itself.
proof fn lemma_unseen_push<E>(
    events: Seq<EventModel<E>>,
    event: EventModel<E>,
    last: Option<Seq<char>>,
)
    ensures
        unseen(events.push(event), last) == (if event_id::event_after(last, event.id) {
            unseen(events, last).push(event)
        } else {
            unseen(events, last)
        }),
{
    reveal(Seq::filter);
    assert(events.push(event).drop_last() =~= events);
}

/// The highest sequence number among the ids of `events`.
pub fn max_seq<E>(events: &Vec<ScopedEvent<E>>) -> (r: Option<u64>)
    ensures
        r == highest_seq(event_models(events@)),
{
    let mut high: Option<u64> = None;
    let mut i: usize = 0;
    let ghost all = event_models(events@);
    while i < events.len()
        invariant
            all == event_models(events@),
            i <= events@.len(),
            high == highest_seq(all.take(i as int)),
        decreases events@.len() - i,
    {
        assert(all.take(i + 1).drop_last() =~= all.take(i as int));
        if let Some((_, seq)) = parse_event_id(events[i].id.as_str()) {
            high = match high {
                Some(h) => if seq > h {
                    Some(seq)
                } else {
                    Some(h)
                },
                None => Some(seq),
            };
        }
        i = i + 1;
    }
    assert(all.take(i as int) =~= all);
    high
}

} // verus!
