//! Connection manager for events that are broadcast to browser tabs.
//!
//! The manager numbers the events, keeps the recent ones of each user, bounds
//! the number of connections, and decides which events a connection is sent.
//! The channel that carries the events is the caller's.

use crate::event_id;
use crate::event_id::{is_event_after, make_event_id, parse_event_id};
use crate::replay;
use crate::replay::{max_seq, EventModel, ReplayBuffers, ScopedEvent};
use crate::text::same_text;
use std::sync::Arc;
use uuid::Uuid;
use vstd::prelude::*;

verus! {

/// The greatest number of connections at a time, unless another is asked for.
/// It keeps a flood of connections from exhausting the process.
pub const DEFAULT_MAX_CONNECTIONS: u64 = 100;

/// The manager as contracts speak of it.
pub struct SseModel<E> {
    pub boot_id: Seq<char>,
    pub next_event_id: u64,
    pub connections: u64,
    pub max_connections: u64,
    pub replay: Map<Seq<char>, Seq<EventModel<E>>>,
}

/// A lower-case hexadecimal digit.
pub open spec fn hex_digit(c: char) -> bool {
    '0' <= c && c <= '9' || 'a' <= c && c <= 'f'
}

/// A random (version 4) UUID in its hyphenated, lower-case form.
pub open spec fn uuid_v4(s: Seq<char>) -> bool {
    &&& s.len() == 36
    &&& forall|i: int|
        0 <= i < 36 ==> if i == 8 || i == 13 || i == 18 || i == 23 {
            #[trigger] s[i] == '-'
        } else {
            hex_digit(s[i])
        }
    &&& s[14] == '4'
    &&& s[19] == '8' || s[19] == '9' || s[19] == 'a' || s[19] == 'b'
}

/// `Uuid::new_v4` of the `uuid` crate, in the form that its `Display` gives: a
/// version 4 UUID, hyphenated and in lower case. Which one it is rests on
/// chance. It panics where the system has no random bytes to give.
#[verifier::external_body]
fn random_uuid() -> (r: String)
    ensures
        uuid_v4(r@),
{
    Uuid::new_v4().to_string()
}

/// `id` is a run id that was drawn for a new manager.
pub closed spec fn drawn_run_id(id: Seq<char>) -> bool {
    exists|drawn: String| #[trigger] call_ensures(random_uuid, (), drawn) && drawn@ == id
}

/// A run id is what a call for a random UUID returned, and nothing else.
proof fn lemma_run_ids_are_drawn(id: Seq<char>)
    ensures
        drawn_run_id(id) == (exists|drawn: String| #[trigger]
            call_ensures(random_uuid, (), drawn) && drawn@ == id),
{
}

/// The sequence number after `seq`. It starts over at zero after the largest.
pub open spec fn next_seq(seq: u64) -> u64 {
    if seq == u64::MAX {
        0
    } else {
        (seq + 1) as u64
    }
}

/// The event that the manager issues next.
pub open spec fn issued<E>(m: SseModel<E>, user_id: Option<Seq<char>>, event: E) -> EventModel<E> {
    EventModel { id: event_id::event_id(m.boot_id, m.next_event_id), user_id, event }
}

/// The manager after it has issued an event.
pub open spec fn after_issue<E>(m: SseModel<E>) -> SseModel<E> {
    SseModel { next_event_id: next_seq(m.next_event_id), ..m }
}

/// The manager after `event` has been appended to the buffer of `user`.
pub open spec fn after_append<E>(m: SseModel<E>, user: Seq<char>, event: EventModel<E>) -> SseModel<
    E,
> {
    SseModel {
        replay: m.replay.insert(user, replay::capped(replay::kept(m.replay, user).push(event))),
        ..m
    }
}

/// The manager after it has issued an event for `user`.
pub open spec fn after_broadcast_for_user<E>(m: SseModel<E>, user: Seq<char>, event: E) -> SseModel<
    E,
> {
    after_append(after_issue(m), user, issued(m, Some(user), event))
}

/// A subscription as contracts speak of it.
pub struct SubscriptionModel<E> {
    pub boot_id: Seq<char>,
    pub user_id: Option<Seq<char>>,
    pub last_event_id: Option<Seq<char>>,
    pub replay: Seq<EventModel<E>>,
    pub replay_max_seq: Option<u64>,
}

/// What the manager has to replay to a client of `user_id` that last saw
/// `last_event_id`.
pub open spec fn replayed<E>(
    m: SseModel<E>,
    user_id: Option<Seq<char>>,
    last_event_id: Option<Seq<char>>,
) -> Seq<EventModel<E>> {
    match user_id {
        Some(user) => replay::unseen(replay::kept(m.replay, user), last_event_id),
        None => Seq::empty(),
    }
}

/// The subscription of a client of `user_id` that last saw `last_event_id`.
pub open spec fn subscription<E>(
    m: SseModel<E>,
    user_id: Option<Seq<char>>,
    last_event_id: Option<Seq<char>>,
) -> SubscriptionModel<E> {
    SubscriptionModel {
        boot_id: m.boot_id,
        user_id,
        last_event_id,
        replay: replayed(m, user_id, last_event_id),
        replay_max_seq: replay::highest_seq(replayed(m, user_id, last_event_id)),
    }
}

/// The manager after a connection has been taken.
pub open spec fn after_connect<E>(m: SseModel<E>) -> SseModel<E> {
    SseModel { connections: (m.connections + 1) as u64, ..m }
}

/// The manager after a connection has been given back.
pub open spec fn after_disconnect<E>(m: SseModel<E>) -> SseModel<E> {
    SseModel { connections: (m.connections - 1) as u64, ..m }
}

/// Whether an event is covered by what has been replayed: it is of the run that
/// replayed, and its number is no higher than the highest replayed. Another run
/// may share the channel, and its numbers say nothing here.
pub open spec fn covered<E>(sub: SubscriptionModel<E>, id: Seq<char>) -> bool {
    match (sub.replay_max_seq, event_id::parsed_event_id(id)) {
        (Some(high), Some((boot, seq))) => boot == sub.boot_id && seq <= high,
        _ => false,
    }
}

/// Whether an event is meant for a subscriber: a global event is meant for all,
/// a subscriber without a user gets all, and else the users are the same.
pub open spec fn in_scope(subscriber: Option<Seq<char>>, event: Option<Seq<char>>) -> bool {
    match (subscriber, event) {
        (_, None) => true,
        (None, _) => true,
        (Some(s), Some(e)) => s == e,
    }
}

/// Whether an event from the live channel is sent on.
pub open spec fn delivered<E>(sub: SubscriptionModel<E>, event: EventModel<E>) -> bool {
    &&& !covered(sub, event.id)
    &&& in_scope(sub.user_id, event.user_id)
    &&& event_id::event_after(sub.last_event_id, event.id)
}

/// The sequence number of an event, where its id can be taken apart.
pub open spec fn seq_of<E>(event: EventModel<E>) -> u64 {
    match event_id::parsed_event_id(event.id) {
        Some((_, seq)) => seq,
        None => 0,
    }
}

/// An event that the run `boot` issued for `user`.
pub open spec fn own_event<E>(boot: Seq<char>, user: Seq<char>, event: EventModel<E>) -> bool {
    &&& event.user_id == Some(user)
    &&& event.id == event_id::event_id(boot, seq_of(event))
}

/// What holds of a manager at all times: the limit is kept, ids can be taken
/// apart again, and every buffer holds a bounded number of events, all of them
/// of its own user and of this run.
pub open spec fn sound<E>(m: SseModel<E>) -> bool {
    &&& m.connections <= m.max_connections
    &&& !m.boot_id.contains(':')
    &&& forall|user: Seq<char>| #[trigger]
        m.replay.contains_key(user) ==> m.replay[user].len() <= replay::REPLAY_BUFFER_CAP
    &&& forall|user: Seq<char>, i: int|
        #![trigger m.replay[user][i]]
        m.replay.contains_key(user) && 0 <= i < m.replay[user].len() ==> own_event(
            m.boot_id,
            user,
            m.replay[user][i],
        )
}

/// Manages the broadcast of events to all connected tabs.
pub struct SseManager<E> {
    boot_id: String,
    next_event_id: u64,
    connection_count: u64,
    max_connections: u64,
    replay: ReplayBuffers<E>,
}

impl<E> View for SseManager<E> {
    type V = SseModel<E>;

    closed spec fn view(&self) -> SseModel<E> {
        SseModel {
            boot_id: self.boot_id@,
            next_event_id: self.next_event_id,
            connections: self.connection_count,
            max_connections: self.max_connections,
            replay: self.replay@,
        }
    }
}

impl<E> SseManager<E> {
    /// The buffers are well formed.
    pub closed spec fn buffers_wf(&self) -> bool {
        self.replay.wf()
    }

    /// The manager is well formed.
    pub open spec fn wf(&self) -> bool {
        self.buffers_wf() && sound(self@)
    }

    /// A manager with the default limit.
    pub fn new() -> (r: SseManager<E>)
        ensures
            r.wf(),
            uuid_v4(r@.boot_id),
            drawn_run_id(r@.boot_id),
            r@.next_event_id == 1,
            r@.connections == 0,
            r@.max_connections == DEFAULT_MAX_CONNECTIONS,
            r@.replay == Map::<Seq<char>, Seq<EventModel<E>>>::empty(),
    {
        SseManager::with_max_connections(DEFAULT_MAX_CONNECTIONS)
    }

    /// A manager with a limit of its own. It starts a new run: no connection is
    /// taken, nothing is kept, and the first event has number one.
    pub fn with_max_connections(max_connections: u64) -> (r: SseManager<E>)
        ensures
            r.wf(),
            uuid_v4(r@.boot_id),
            drawn_run_id(r@.boot_id),
            r@.next_event_id == 1,
            r@.connections == 0,
            r@.max_connections == max_connections,
            r@.replay == Map::<Seq<char>, Seq<EventModel<E>>>::empty(),
    {
        let source = random_uuid;
        let boot_id: String = source();
        proof {
            lemma_run_ids_are_drawn(boot_id@);
        }
        assert(!boot_id@.contains(':')) by {
            assert forall|i: int| 0 <= i < boot_id@.len() implies #[trigger] boot_id@[i] != ':' by {
                assert(boot_id@[i] == '-' || hex_digit(boot_id@[i]));
            }
        }
        SseManager::with_boot_id(boot_id, max_connections)
    }

    /// A manager of the run `boot_id`, with a limit of its own. The id of a run
    /// holds no colon, so that the ids of its events can be taken apart.
    pub fn with_boot_id(boot_id: String, max_connections: u64) -> (r: SseManager<E>)
        requires
            !boot_id@.contains(':'),
        ensures
            r.wf(),
            r@ == (SseModel {
                boot_id: boot_id@,
                next_event_id: 1,
                connections: 0,
                max_connections,
                replay: Map::<Seq<char>, Seq<EventModel<E>>>::empty(),
            }),
    {
        SseManager {
            boot_id,
            next_event_id: 1,
            connection_count: 0,
            max_connections,
            replay: ReplayBuffers::new(),
        }
    }

    /// The limit on connections.
    pub fn max_connections(&self) -> (r: u64)
        ensures
            r == self@.max_connections,
    {
        self.max_connections
    }

    /// How many connections are taken.
    pub fn connection_count(&self) -> (r: u64)
        ensures
            r == self@.connections,
    {
        self.connection_count
    }

    /// Number an event.
    fn next_scoped_event(&mut self, user_id: Option<String>, event: E) -> (r: ScopedEvent<E>)
        requires
            old(self).wf(),
        ensures
            final(self).wf(),
            r@ == issued(old(self)@, user_id.deep_view(), event),
            r.user_id == user_id && *r.event == event,
            final(self)@ == after_issue(old(self)@),
    {
        let seq: u64 = self.next_event_id;
        self.next_event_id = seq.wrapping_add(1);
        assert(self@ == after_issue(old(self)@));
        ScopedEvent {
            id: make_event_id(self.boot_id.as_str(), seq),
            user_id,
            event: Arc::new(event),
        }
    }

    /// Number a global event. It is to be sent to all subscribers, and is not
    /// kept.
    pub fn broadcast(&mut self, event: E) -> (r: ScopedEvent<E>)
        requires
            old(self).wf(),
        ensures
            final(self).wf(),
            r@ == issued(old(self)@, None, event),
            r.user_id is None && *r.event == event,
            final(self)@ == after_issue(old(self)@),
    {
        self.next_scoped_event(None, event)
    }

    /// Number an event of one user and keep it for that user's clients. It is to
    /// be sent to all subscribers, each of which takes what is meant for it.
    pub fn broadcast_for_user(&mut self, user_id: &str, event: E) -> (r: ScopedEvent<E>)
        requires
            old(self).wf(),
        ensures
            final(self).wf(),
            r@ == issued(old(self)@, Some(user_id@), event),
            r.user_id.deep_view() == Some(user_id@) && *r.event == event,
            final(self)@ == after_broadcast_for_user(old(self)@, user_id@, event),
    {
        let scoped: ScopedEvent<E> = self.next_scoped_event(Some(user_id.to_owned()), event);
        proof {
            event_id::event_ids_read_back(old(self)@.boot_id, old(self)@.next_event_id);
        }
        self.append_replay(user_id, scoped.duplicate());
        scoped
    }

    /// Keep an event for the clients of `user_id`.
    fn append_replay(&mut self, user_id: &str, scoped: ScopedEvent<E>)
        requires
            old(self).wf(),
            own_event(old(self)@.boot_id, user_id@, scoped@),
        ensures
            final(self).wf(),
            final(self)@ == after_append(old(self)@, user_id@, scoped@),
    {
        proof {
            lemma_append_is_sound(self@, user_id@, scoped@);
        }
        self.replay.append_replay(user_id, scoped);
    }

    /// The events of `user_id` that a client which last saw `last_event_id` has
    /// yet to see, oldest first.
    fn snapshot_replay(&self, user_id: &str, last_event_id: Option<&str>) -> (r: Vec<
        ScopedEvent<E>,
    >)
        requires
            self.wf(),
        ensures
            replay::event_models(r@) == replayed(self@, Some(user_id@), last_event_id.deep_view()),
    {
        self.replay.snapshot_replay(user_id, last_event_id)
    }

    /// Take a connection for a consumer that is sent bare events. `None` means
    /// that the limit has been reached.
    pub fn subscribe_raw(&mut self, user_id: Option<String>) -> (r: Option<Subscription<E>>)
        requires
            old(self).wf(),
        ensures
            final(self).wf(),
            match r {
                Some(sub) => {
                    &&& old(self)@.connections < old(self)@.max_connections
                    &&& final(self)@ == after_connect(old(self)@)
                    &&& sub@ == subscription(old(self)@, user_id.deep_view(), None)
                },
                None => {
                    &&& old(self)@.connections == old(self)@.max_connections
                    &&& final(self)@ == old(self)@
                },
            },
    {
        self.subscribe(user_id, None)
    }

    /// Take a connection for a client that last saw `last_event_id`. `None` means
    /// that the limit has been reached.
    pub fn subscribe(&mut self, user_id: Option<String>, last_event_id: Option<String>) -> (r:
        Option<Subscription<E>>)
        requires
            old(self).wf(),
        ensures
            final(self).wf(),
            match r {
                Some(sub) => {
                    &&& old(self)@.connections < old(self)@.max_connections
                    &&& final(self)@ == after_connect(old(self)@)
                    &&& sub@ == subscription(
                        old(self)@,
                        user_id.deep_view(),
                        last_event_id.deep_view(),
                    )
                },
                None => {
                    &&& old(self)@.connections == old(self)@.max_connections
                    &&& final(self)@ == old(self)@
                },
            },
    {
        if self.connection_count >= self.max_connections {
            return None;
        }
        self.connection_count = self.connection_count + 1;
        let replay: Vec<ScopedEvent<E>> = match &user_id {
            Some(user) => match &last_event_id {
                Some(last) => self.snapshot_replay(user.as_str(), Some(last.as_str())),
                None => self.snapshot_replay(user.as_str(), None),
            },
            None => Vec::new(),
        };
        assert(replay::event_models(replay@) =~= replayed(
            old(self)@,
            user_id.deep_view(),
            last_event_id.deep_view(),
        ));
        let replay_max_seq: Option<u64> = max_seq(&replay);
        Some(
            Subscription {
                boot_id: self.boot_id.clone(),
                user_id,
                last_event_id,
                replay,
                replay_max_seq,
            },
        )
    }

    /// Give a connection back. Every connection is given back once, when its
    /// client is gone.
    pub fn disconnect(&mut self)
        requires
            old(self).wf(),
            old(self)@.connections > 0,
        ensures
            final(self).wf(),
            final(self)@ == after_disconnect(old(self)@),
    {
        self.connection_count = self.connection_count - 1;
        assert(self@ == after_disconnect(old(self)@));
    }
}

impl<E> Default for SseManager<E> {
    fn default() -> (r: SseManager<E>)
        ensures
            r.wf(),
            uuid_v4(r@.boot_id),
            drawn_run_id(r@.boot_id),
            r@.next_event_id == 1,
            r@.connections == 0,
            r@.max_connections == DEFAULT_MAX_CONNECTIONS,
            r@.replay == Map::<Seq<char>, Seq<EventModel<E>>>::empty(),
    {
        SseManager::new()
    }
}

/// What a connection is sent: first the events in `replay`, then those of the
/// live channel that [`Subscription::delivers`] lets through.
pub struct Subscription<E> {
    pub boot_id: String,
    pub user_id: Option<String>,
    pub last_event_id: Option<String>,
    pub replay: Vec<ScopedEvent<E>>,
    pub replay_max_seq: Option<u64>,
}

impl<E> View for Subscription<E> {
    type V = SubscriptionModel<E>;

    open spec fn view(&self) -> SubscriptionModel<E> {
        SubscriptionModel {
            boot_id: self.boot_id@,
            user_id: self.user_id.deep_view(),
            last_event_id: self.last_event_id.deep_view(),
            replay: replay::event_models(self.replay@),
            replay_max_seq: self.replay_max_seq,
        }
    }
}

impl<E> Subscription<E> {
    /// Whether an event from the live channel is sent on.
    pub fn delivers(&self, scoped: &ScopedEvent<E>) -> (r: bool)
        ensures
            r == delivered(self@, scoped@),
    {
        if let Some(high) = self.replay_max_seq {
            if let Some((boot, seq)) = parse_event_id(scoped.id.as_str()) {
                if same_text(boot, self.boot_id.as_str()) && seq <= high {
                    return false;
                }
            }
        }
        let meant: bool = match (&self.user_id, &scoped.user_id) {
            (_, None) => true,
            (None, _) => true,
            (Some(subscriber), Some(user)) => same_text(subscriber.as_str(), user.as_str()),
        };
        if !meant {
            return false;
        }
        match &self.last_event_id {
            Some(last) => is_event_after(Some(last.as_str()), scoped.id.as_str()),
            None => is_event_after(None, scoped.id.as_str()),
        }
    }
}

/// An event in the form in which it goes over the wire.
pub struct SseFrame {
    pub id: String,
    pub event: String,
    pub data: String,
}

/// The frame of an event, from its type and its serialised form. An event that
/// could not be serialised is left out.
pub fn scoped_to_sse_event<E>(
    scoped: &ScopedEvent<E>,
    event_type: &str,
    serialized: Result<String, String>,
) -> (r: Option<SseFrame>)
    ensures
        match serialized {
            Ok(data) => r matches Some(frame) && frame.id@ == scoped@.id && frame.event@
                == event_type@ && frame.data@ == data@,
            Err(_) => r is None,
        },
{
    match serialized {
        Ok(data) => Some(
            SseFrame { id: scoped.id.clone(), event: event_type.to_owned(), data },
        ),
        Err(_) => None,
    }
}

/// An event of the run that is kept for its user leaves the manager sound.
proof fn lemma_append_is_sound<E>(m: SseModel<E>, user: Seq<char>, event: EventModel<E>)
    requires
        sound(m),
        own_event(m.boot_id, user, event),
    ensures
        sound(after_append(m, user, event)),
{
    let n = after_append(m, user, event);
    let longer = replay::kept(m.replay, user).push(event);
    assert forall|u: Seq<char>, i: int|
        #![trigger n.replay[u][i]]
        n.replay.contains_key(u) && 0 <= i < n.replay[u].len() implies own_event(
        n.boot_id,
        u,
        n.replay[u][i],
    ) by {
        if u == user {
            let d = longer.len() - n.replay[u].len();
            assert(n.replay[u][i] == longer[i + d]);
            if i + d < longer.len() - 1 {
                assert(longer[i + d] == m.replay[u][i + d]);
            }
        } else {
            assert(n.replay[u] == m.replay[u]);
            assert(own_event(m.boot_id, u, m.replay[u][i]));
        }
    }
    assert forall|u: Seq<char>| #[trigger] n.replay.contains_key(u) implies n.replay[u].len()
        <= replay::REPLAY_BUFFER_CAP by {
        if u != user {
            assert(m.replay.contains_key(u));
        }
    }
}

} // verus!
