//! What holds of the broadcast of events as a whole.

use crate::event_id;
use crate::replay;
use crate::replay::EventModel;
use crate::sse;
use crate::sse::{SseModel, SubscriptionModel};
use crate::text;
use vstd::prelude::*;

verus! {

/// The sequence numbers rise from each event to every later one.
pub open spec fn rising<E>(events: Seq<EventModel<E>>) -> bool {
    forall|i: int, j: int|
        #![trigger events[i], events[j]]
        0 <= i < j < events.len() ==> sse::seq_of(events[i]) < sse::seq_of(events[j])
}

/// All of `events` were issued by the run `boot`.
pub open spec fn of_run<E>(boot: Seq<char>, events: Seq<EventModel<E>>) -> bool {
    forall|i: int|
        0 <= i < events.len() ==> (#[trigger] events[i]).id == event_id::event_id(
            boot,
            sse::seq_of(events[i]),
        )
}

/// In every buffer the sequence numbers rise, and all are below the next one.
pub open spec fn ordered<E>(m: SseModel<E>) -> bool {
    &&& forall|user: Seq<char>| #[trigger] m.replay.contains_key(user) ==> rising(m.replay[user])
    &&& forall|user: Seq<char>, i: int|
        #![trigger m.replay[user][i]]
        m.replay.contains_key(user) && 0 <= i < m.replay[user].len() ==> sse::seq_of(
            m.replay[user][i],
        ) < m.next_event_id
}

/// What a connection is sent when `live` is what comes over the channel.
pub open spec fn stream<E>(sub: SubscriptionModel<E>, live: Seq<EventModel<E>>) -> Seq<
    EventModel<E>,
> {
    sub.replay + live.filter(|e: EventModel<E>| sse::delivered(sub, e))
}

proof fn lemma_filter<E>(events: Seq<EventModel<E>>, pred: spec_fn(EventModel<E>) -> bool)
    ensures
        forall|i: int|
            0 <= i < events.filter(pred).len() ==> events.contains(#[trigger] events.filter(pred)[i])
                && pred(events.filter(pred)[i]),
        rising(events) ==> rising(events.filter(pred)),
    decreases events.len(),
{
    reveal(Seq::filter);
    if events.len() > 0 {
        let init = events.drop_last();
        let out = events.filter(pred);
        lemma_filter(init, pred);
        assert forall|i: int| 0 <= i < out.len() implies events.contains(#[trigger] out[i]) && pred(
            out[i],
        ) by {
            if i < init.filter(pred).len() {
                assert(out[i] == init.filter(pred)[i]);
                let k = choose|k: int| 0 <= k < init.len() && init[k] == out[i];
                assert(events[k] == out[i]);
            } else {
                assert(out[i] == events[events.len() - 1]);
            }
        }
        if rising(events) {
            assert(rising(init)) by {
                assert forall|i: int, j: int|
                    #![trigger init[i], init[j]]
                    0 <= i < j < init.len() implies sse::seq_of(init[i]) < sse::seq_of(init[j]) by {
                    assert(init[i] == events[i] && init[j] == events[j]);
                }
            }
            assert forall|i: int, j: int|
                #![trigger out[i], out[j]]
                0 <= i < j < out.len() implies sse::seq_of(out[i]) < sse::seq_of(out[j]) by {
                let part = init.filter(pred);
                assert(out[i] == part[i]);
                if j < part.len() {
                    assert(out[j] == part[j]);
                } else {
                    assert(out[j] == events[events.len() - 1]);
                    let k = choose|k: int| 0 <= k < init.len() && init[k] == part[i];
                    assert(init[k] == events[k]);
                }
            }
        }
    }
}

proof fn lemma_highest<E>(boot: Seq<char>, events: Seq<EventModel<E>>)
    requires
        !boot.contains(':'),
        of_run(boot, events),
    ensures
        replay::highest_seq(events) is None <==> events.len() == 0,
        forall|i: int|
            0 <= i < events.len() ==> sse::seq_of(#[trigger] events[i])
                <= replay::highest_seq(events)->0,
        events.len() > 0 ==> exists|i: int|
            0 <= i < events.len() && sse::seq_of(#[trigger] events[i]) == replay::highest_seq(
                events,
            )->0,
    decreases events.len(),
{
    if events.len() > 0 {
        let init = events.drop_last();
        let last = events[events.len() - 1];
        assert(of_run(boot, init)) by {
            assert forall|i: int| 0 <= i < init.len() implies (#[trigger] init[i]).id
                == event_id::event_id(boot, sse::seq_of(init[i])) by {
                assert(init[i] == events[i]);
            }
        }
        lemma_highest(boot, init);
        event_id::event_ids_read_back(boot, sse::seq_of(last));
        assert(event_id::parsed_event_id(events.last().id) == Some((boot, sse::seq_of(last))));
        assert forall|i: int| 0 <= i < events.len() implies sse::seq_of(#[trigger] events[i])
            <= replay::highest_seq(events)->0 by {
            if i < init.len() {
                assert(init[i] == events[i]);
            }
        }
        if init.len() > 0 && replay::highest_seq(init)->0 >= sse::seq_of(last) {
            let k = choose|k: int|
                0 <= k < init.len() && sse::seq_of(#[trigger] init[k]) == replay::highest_seq(
                    init,
                )->0;
            assert(events[k] == init[k]);
            assert(sse::seq_of(events[k]) == replay::highest_seq(events)->0);
        } else {
            assert(sse::seq_of(events[events.len() - 1]) == replay::highest_seq(events)->0);
        }
    }
}

proof fn lemma_replayed<E>(
    m: SseModel<E>,
    user_id: Option<Seq<char>>,
    last: Option<Seq<char>>,
)
    requires
        sse::sound(m),
    ensures
        of_run(m.boot_id, sse::replayed(m, user_id, last)),
        forall|i: int|
            0 <= i < sse::replayed(m, user_id, last).len() ==> {
                let e = #[trigger] sse::replayed(m, user_id, last)[i];
                user_id is Some && e.user_id == user_id && replay::kept(
                    m.replay,
                    user_id->0,
                ).contains(e) && event_id::event_after(last, e.id)
            },
        ordered(m) ==> rising(sse::replayed(m, user_id, last)),
        ordered(m) ==> forall|i: int|
            0 <= i < sse::replayed(m, user_id, last).len() ==> sse::seq_of(
                #[trigger] sse::replayed(m, user_id, last)[i],
            ) < m.next_event_id,
{
    if let Some(user) = user_id {
        let kept = replay::kept(m.replay, user);
        let out = sse::replayed(m, user_id, last);
        lemma_filter(kept, |e: EventModel<E>| event_id::event_after(last, e.id));
        assert forall|i: int| 0 <= i < out.len() implies {
            let e = #[trigger] out[i];
            &&& e.user_id == user_id
            &&& e.id == event_id::event_id(m.boot_id, sse::seq_of(e))
            &&& kept.contains(e)
            &&& ordered(m) ==> sse::seq_of(e) < m.next_event_id
        } by {
            let k = choose|k: int| 0 <= k < kept.len() && kept[k] == out[i];
            assert(m.replay[user][k] == out[i]);
            assert(sse::own_event(m.boot_id, user, m.replay[user][k]));
        }
    }
}

/// A new manager has nothing out of order.
pub proof fn new_managers_are_ordered<E>(m: SseModel<E>)
    requires
        m.replay == Map::<Seq<char>, Seq<EventModel<E>>>::empty(),
    ensures
        ordered(m),
{
}

/// Broadcasts keep the buffers in order, until the sequence numbers run out.
pub proof fn broadcasts_keep_the_order<E>(m: SseModel<E>, user: Seq<char>, event: E)
    requires
        sse::sound(m),
        ordered(m),
        m.next_event_id < u64::MAX,
    ensures
        ordered(sse::after_issue(m)),
        ordered(sse::after_broadcast_for_user(m, user, event)),
{
    let issued = sse::issued(m, Some(user), event);
    let n = sse::after_broadcast_for_user(m, user, event);
    let longer = replay::kept(m.replay, user).push(issued);
    event_id::event_ids_read_back(m.boot_id, m.next_event_id);
    assert(sse::seq_of(issued) == m.next_event_id);
    assert forall|i: int| 0 <= i < longer.len() - 1 implies (#[trigger] longer[i])
        == m.replay[user][i] && sse::seq_of(longer[i]) < m.next_event_id by {
        assert(longer[i] == m.replay[user][i]);
    }
    assert(rising(longer)) by {
        assert forall|i: int, j: int|
            #![trigger longer[i], longer[j]]
            0 <= i < j < longer.len() implies sse::seq_of(longer[i]) < sse::seq_of(longer[j]) by {
            assert(longer[i] == m.replay[user][i]);
            if j < longer.len() - 1 {
                assert(longer[j] == m.replay[user][j]);
                assert(rising(m.replay[user]));
            }
        }
    }
    let d = longer.len() - replay::capped(longer).len();
    assert forall|i: int| 0 <= i < replay::capped(longer).len() implies (
    #[trigger] replay::capped(longer)[i]) == longer[i + d] by {}
    assert forall|u: Seq<char>| #[trigger] n.replay.contains_key(u) implies rising(n.replay[u]) by {
        if u == user {
            assert forall|i: int, j: int|
                #![trigger n.replay[u][i], n.replay[u][j]]
                0 <= i < j < n.replay[u].len() implies sse::seq_of(n.replay[u][i]) < sse::seq_of(
                n.replay[u][j],
            ) by {
                assert(n.replay[u][i] == longer[i + d]);
                assert(n.replay[u][j] == longer[j + d]);
            }
        } else {
            assert(m.replay.contains_key(u));
        }
    }
    assert forall|u: Seq<char>, i: int|
        #![trigger n.replay[u][i]]
        n.replay.contains_key(u) && 0 <= i < n.replay[u].len() implies sse::seq_of(n.replay[u][i])
        < n.next_event_id by {
        if u == user {
            assert(n.replay[u][i] == longer[i + d]);
        } else {
            assert(n.replay[u][i] == m.replay[u][i]);
        }
    }
}

/// No two events of a run have the same id.
pub proof fn ids_are_distinct(boot: Seq<char>, a: u64, b: u64)
    requires
        !boot.contains(':'),
        event_id::event_id(boot, a) == event_id::event_id(boot, b),
    ensures
        a == b,
{
    event_id::event_ids_read_back(boot, a);
    event_id::event_ids_read_back(boot, b);
}

/// To give a connection back undoes to take it.
pub proof fn a_disconnect_undoes_a_connect<E>(m: SseModel<E>)
    requires
        m.connections < m.max_connections,
    ensures
        sse::after_disconnect(sse::after_connect(m)) == m,
        sse::after_connect(m).connections <= m.max_connections,
{
}

/// A broadcast: the event, and the user that it is for, if it is not global.
pub struct Broadcast<E> {
    pub user_id: Option<Seq<char>>,
    pub event: E,
}

/// The events that the manager issues for `history`, one after the other.
pub open spec fn issued_all<E>(m: SseModel<E>, history: Seq<Broadcast<E>>) -> Seq<EventModel<E>> {
    Seq::new(
        history.len(),
        |i: int|
            EventModel {
                id: event_id::event_id(m.boot_id, (m.next_event_id + i) as u64),
                user_id: history[i].user_id,
                event: history[i].event,
            },
    )
}

/// The manager after the broadcasts of `history`.
pub open spec fn after_broadcasts<E>(m: SseModel<E>, history: Seq<Broadcast<E>>) -> SseModel<E>
    decreases history.len(),
{
    if history.len() == 0 {
        m
    } else {
        let before = after_broadcasts(m, history.drop_last());
        match history.last().user_id {
            Some(user) => sse::after_broadcast_for_user(before, user, history.last().event),
            None => sse::after_issue(before),
        }
    }
}

/// Those of `events` that are for `user`.
pub open spec fn of_user<E>(events: Seq<EventModel<E>>, user: Seq<char>) -> Seq<EventModel<E>> {
    events.filter(|e: EventModel<E>| e.user_id == Some(user))
}

/// A buffer holds the most recent events of its user, in the order in which they
/// were broadcast, whatever was broadcast in between: the last ones of what it
/// held before and of what came after. This holds until the sequence numbers run
/// out.
pub proof fn buffers_hold_the_most_recent_events<E>(
    m: SseModel<E>,
    history: Seq<Broadcast<E>>,
    user: Seq<char>,
)
    requires
        m.next_event_id + history.len() <= u64::MAX,
        replay::kept(m.replay, user).len() <= replay::REPLAY_BUFFER_CAP,
    ensures
        replay::kept(after_broadcasts(m, history).replay, user) == replay::capped(
            replay::kept(m.replay, user) + of_user(issued_all(m, history), user),
        ),
        after_broadcasts(m, history).next_event_id == m.next_event_id + history.len(),
        after_broadcasts(m, history).boot_id == m.boot_id,
    decreases history.len(),
{
    reveal(Seq::filter);
    let before = replay::kept(m.replay, user);
    if history.len() == 0 {
        assert(before + of_user(issued_all(m, history), user) =~= before);
    } else {
        let init = history.drop_last();
        buffers_hold_the_most_recent_events(m, init, user);
        let n = after_broadcasts(m, init);
        let e = sse::issued(n, history.last().user_id, history.last().event);
        assert(issued_all(m, history).drop_last() =~= issued_all(m, init));
        assert(issued_all(m, history).last() == e);
        let whole = before + of_user(issued_all(m, init), user);
        if history.last().user_id == Some(user) {
            assert(before + of_user(issued_all(m, history), user) =~= whole.push(e));
            assert(replay::capped(replay::capped(whole).push(e)) =~= replay::capped(whole.push(e)));
        } else {
            assert(of_user(issued_all(m, history), user) == of_user(issued_all(m, init), user));
        }
    }
}

/// The buffers of other users are not touched, and a global event is not kept.
pub proof fn other_buffers_are_not_touched<E>(
    m: SseModel<E>,
    user: Seq<char>,
    event: E,
    other: Seq<char>,
)
    requires
        other != user,
    ensures
        replay::kept(sse::after_broadcast_for_user(m, user, event).replay, other) == replay::kept(
            m.replay,
            other,
        ),
        sse::after_issue(m).replay == m.replay,
{
}

/// A subscriber with a user is sent that user's events and global ones, and
/// never an event of another user.
pub proof fn no_other_users_events_are_sent<E>(
    m: SseModel<E>,
    user: Seq<char>,
    last: Option<Seq<char>>,
    live: Seq<EventModel<E>>,
    i: int,
)
    requires
        sse::sound(m),
        0 <= i < stream(sse::subscription(m, Some(user), last), live).len(),
    ensures
        ({
            let e = stream(sse::subscription(m, Some(user), last), live)[i];
            e.user_id is None || e.user_id == Some(user)
        }),
{
    let sub = sse::subscription(m, Some(user), last);
    lemma_replayed(m, Some(user), last);
    lemma_filter(live, |e: EventModel<E>| sse::delivered(sub, e));
    let sent = live.filter(|e: EventModel<E>| sse::delivered(sub, e));
    if i < sub.replay.len() {
        assert(stream(sub, live)[i] == sub.replay[i]);
    } else {
        assert(stream(sub, live)[i] == sent[i - sub.replay.len()]);
    }
}

/// Nothing is sent twice: over the replay and the live channel together the
/// sequence numbers rise, even where the channel still holds events that have
/// been replayed.
pub proof fn nothing_is_sent_twice<E>(
    m: SseModel<E>,
    user_id: Option<Seq<char>>,
    last: Option<Seq<char>>,
    live: Seq<EventModel<E>>,
)
    requires
        sse::sound(m),
        ordered(m),
        of_run(m.boot_id, live),
        rising(live),
    ensures
        rising(stream(sse::subscription(m, user_id, last), live)),
{
    let sub = sse::subscription(m, user_id, last);
    let pred = |e: EventModel<E>| sse::delivered(sub, e);
    let sent = live.filter(pred);
    let all = stream(sub, live);
    lemma_replayed(m, user_id, last);
    lemma_highest(m.boot_id, sub.replay);
    lemma_filter(live, pred);
    assert forall|i: int, j: int|
        #![trigger all[i], all[j]]
        0 <= i < j < all.len() implies sse::seq_of(all[i]) < sse::seq_of(all[j]) by {
        let n = sub.replay.len() as int;
        if j < n {
            assert(all[i] == sub.replay[i] && all[j] == sub.replay[j]);
        } else if i >= n {
            assert(all[i] == sent[i - n] && all[j] == sent[j - n]);
        } else {
            assert(all[i] == sub.replay[i]);
            assert(all[j] == sent[j - n]);
            let k = choose|k: int| 0 <= k < live.len() && live[k] == sent[j - n];
            assert(live[k].id == event_id::event_id(m.boot_id, sse::seq_of(live[k])));
            event_id::event_ids_read_back(m.boot_id, sse::seq_of(live[k]));
            assert(!sse::covered(sub, sent[j - n].id));
        }
    }
}

/// No later event is lost: an event that is issued after the subscription, is
/// meant for the subscriber and is new to the client is sent on.
pub proof fn later_events_are_sent<E>(
    m: SseModel<E>,
    user_id: Option<Seq<char>>,
    last: Option<Seq<char>>,
    event: EventModel<E>,
    seq: u64,
)
    requires
        sse::sound(m),
        ordered(m),
        m.next_event_id <= seq,
        event.id == event_id::event_id(m.boot_id, seq),
        sse::in_scope(user_id, event.user_id),
        event_id::event_after(last, event.id),
    ensures
        sse::delivered(sse::subscription(m, user_id, last), event),
{
    let sub = sse::subscription(m, user_id, last);
    lemma_replayed(m, user_id, last);
    lemma_highest(m.boot_id, sub.replay);
    event_id::event_ids_read_back(m.boot_id, seq);
    if sub.replay.len() > 0 {
        let k = choose|k: int|
            0 <= k < sub.replay.len() && sse::seq_of(#[trigger] sub.replay[k])
                == replay::highest_seq(sub.replay)->0;
        assert(sse::seq_of(sse::replayed(m, user_id, last)[k]) < m.next_event_id);
    }
}

/// An event of another run that shares the channel is sent on, whatever its
/// number, if it is meant for the subscriber and new to the client.
pub proof fn events_of_other_runs_are_sent<E>(
    m: SseModel<E>,
    user_id: Option<Seq<char>>,
    last: Option<Seq<char>>,
    event: EventModel<E>,
)
    requires
        event_id::parsed_event_id(event.id) matches Some((boot, _)) ==> boot != m.boot_id,
        sse::in_scope(user_id, event.user_id),
        event_id::event_after(last, event.id),
    ensures
        sse::delivered(sse::subscription(m, user_id, last), event),
{
}

/// A global event of another run reaches every subscriber that names no event it
/// last saw.
pub proof fn global_events_of_other_runs_reach_all<E>(
    m: SseModel<E>,
    user_id: Option<Seq<char>>,
    other_boot: Seq<char>,
    seq: u64,
    event: E,
)
    requires
        !other_boot.contains(':'),
        other_boot != m.boot_id,
    ensures
        sse::delivered(
            sse::subscription(m, user_id, None),
            EventModel { id: event_id::event_id(other_boot, seq), user_id: None, event },
        ),
{
    event_id::event_ids_read_back(other_boot, seq);
}

/// A client that reconnects is replayed every kept event that it has not seen.
pub proof fn unseen_events_are_replayed<E>(
    m: SseModel<E>,
    user: Seq<char>,
    last: Option<Seq<char>>,
    i: int,
)
    requires
        0 <= i < replay::kept(m.replay, user).len(),
        event_id::event_after(last, replay::kept(m.replay, user)[i].id),
    ensures
        sse::subscription(m, Some(user), last).replay.contains(replay::kept(m.replay, user)[i]),
{
    let kept = replay::kept(m.replay, user);
    kept.lemma_filter_contains(|e: EventModel<E>| event_id::event_after(last, e.id), i);
}

/// A client that last saw event `seen` of this run is sent no event of the run
/// up to that one again.
pub proof fn seen_events_are_not_sent_again<E>(
    m: SseModel<E>,
    user_id: Option<Seq<char>>,
    seen: u64,
    live: Seq<EventModel<E>>,
    i: int,
)
    requires
        sse::sound(m),
        of_run(m.boot_id, live),
        0 <= i < stream(
            sse::subscription(m, user_id, Some(event_id::event_id(m.boot_id, seen))),
            live,
        ).len(),
    ensures
        sse::seq_of(
            stream(
                sse::subscription(m, user_id, Some(event_id::event_id(m.boot_id, seen))),
                live,
            )[i],
        ) > seen,
{
    let last = Some(event_id::event_id(m.boot_id, seen));
    let sub = sse::subscription(m, user_id, last);
    let pred = |e: EventModel<E>| sse::delivered(sub, e);
    let sent = live.filter(pred);
    lemma_replayed(m, user_id, last);
    lemma_filter(live, pred);
    let n = sub.replay.len() as int;
    let e = stream(sub, live)[i];
    if i < n {
        assert(e == sub.replay[i]);
    } else {
        assert(e == sent[i - n]);
        let k = choose|k: int| 0 <= k < live.len() && live[k] == sent[i - n];
        assert(live[k].id == event_id::event_id(m.boot_id, sse::seq_of(live[k])));
    }
    event_id::later_events_of_a_run_are_after(m.boot_id, seen, sse::seq_of(e));
}

/// A client that comes back after a restart is sent all that is kept for it: an
/// id of another run hides nothing.
pub proof fn a_restart_hides_nothing<E>(
    m: SseModel<E>,
    user: Seq<char>,
    old_boot: Seq<char>,
    seen: u64,
)
    requires
        sse::sound(m),
        !old_boot.contains(':'),
        old_boot != m.boot_id,
    ensures
        sse::subscription(m, Some(user), Some(event_id::event_id(old_boot, seen))).replay
            == replay::kept(m.replay, user),
{
    let last = Some(event_id::event_id(old_boot, seen));
    let kept = replay::kept(m.replay, user);
    assert forall|i: int| 0 <= i < kept.len() implies event_id::event_after(
        last,
        (#[trigger] kept[i]).id,
    ) by {
        assert(sse::own_event(m.boot_id, user, m.replay[user][i]));
        event_id::other_runs_hide_nothing(old_boot, seen, m.boot_id, sse::seq_of(kept[i]));
    }
    lemma_filter_all(kept, |e: EventModel<E>| event_id::event_after(last, e.id));
}

proof fn lemma_filter_all<E>(events: Seq<EventModel<E>>, pred: spec_fn(EventModel<E>) -> bool)
    requires
        forall|i: int| 0 <= i < events.len() ==> pred(#[trigger] events[i]),
    ensures
        events.filter(pred) == events,
    decreases events.len(),
{
    reveal(Seq::filter);
    if events.len() > 0 {
        let init = events.drop_last();
        assert forall|i: int| 0 <= i < init.len() implies pred(#[trigger] init[i]) by {
            assert(init[i] == events[i]);
        }
        lemma_filter_all(init, pred);
        assert(init.push(events.last()) =~= events);
    }
}

/// By default at most a hundred connections are taken at a time, and fifty events
/// are kept for a user.
pub proof fn limits_are_a_hundred_connections_and_fifty_events()
    ensures
        sse::DEFAULT_MAX_CONNECTIONS == 100,
        replay::REPLAY_BUFFER_CAP == 50,
{
}

/// Of more than fifty events the last fifty are kept, and of fewer all.
pub proof fn the_last_fifty_events_are_kept<E>(events: Seq<EventModel<E>>)
    ensures
        events.len() <= 50 ==> replay::capped(events) == events,
        events.len() > 50 ==> replay::capped(events) == events.skip(events.len() - 50),
{
}

/// An event is sent on exactly where it is not one that was replayed, is meant
/// for the subscriber and is new to the client.
pub proof fn events_are_sent_exactly_where_they_are_due<E>(
    sub: SubscriptionModel<E>,
    event: EventModel<E>,
)
    ensures
        ({
            let id = event_id::parsed_event_id(event.id);
            let replayed = sub.replay_max_seq is Some && id is Some && (id->0).0 == sub.boot_id
                && (id->0).1 <= sub.replay_max_seq->0;
            let meant = event.user_id is None || sub.user_id is None || event.user_id
                == sub.user_id;
            let last = event_id::parsed_event_id(sub.last_event_id->0);
            let seen = sub.last_event_id is Some && last is Some && id is Some && (last->0).0 == (
            id->0).0 && (id->0).1 <= (last->0).1;
            sse::delivered(sub, event) <==> !replayed && meant && !seen
        }),
{
}

/// An event goes out as it was handed over, under the id of its run and the next
/// number, and only the number moves on by it.
pub proof fn events_are_numbered_one_after_the_other<E>(
    m: SseModel<E>,
    user_id: Option<Seq<char>>,
    event: E,
)
    ensures
        sse::issued(m, user_id, event).user_id == user_id,
        sse::issued(m, user_id, event).event == event,
        sse::issued(m, user_id, event).id == m.boot_id + seq![':'] + text::decimal(
            m.next_event_id as nat,
        ),
        m.next_event_id < u64::MAX ==> sse::after_issue(m).next_event_id == m.next_event_id + 1,
        m.next_event_id == u64::MAX ==> sse::after_issue(m).next_event_id == 0,
        sse::after_issue(m) == (SseModel {
            next_event_id: sse::after_issue(m).next_event_id,
            ..m
        }),
{
}

/// An event of a user is the last in that user's buffer, and nothing but that
/// buffer and the number changes by it.
pub proof fn events_of_a_user_are_kept_last<E>(m: SseModel<E>, user: Seq<char>, event: E)
    ensures
        ({
            let n = sse::after_broadcast_for_user(m, user, event);
            &&& n.replay.contains_key(user)
            &&& n.replay[user].last() == sse::issued(m, Some(user), event)
            &&& n.replay.remove(user) == m.replay.remove(user)
            &&& n.boot_id == m.boot_id
            &&& n.connections == m.connections
            &&& n.max_connections == m.max_connections
            &&& n.next_event_id == sse::after_issue(m).next_event_id
        }),
{
    let n = sse::after_broadcast_for_user(m, user, event);
    assert(n.replay.remove(user) =~= m.replay.remove(user));
}

/// To connect takes one connection, to disconnect gives one back, and nothing
/// else changes by either.
pub proof fn connections_are_counted_one_by_one<E>(m: SseModel<E>)
    ensures
        m.connections < u64::MAX ==> sse::after_connect(m) == (SseModel {
            connections: (m.connections + 1) as u64,
            ..m
        }),
        m.connections > 0 ==> sse::after_disconnect(m) == (SseModel {
            connections: (m.connections - 1) as u64,
            ..m
        }),
{
}

/// A subscription is for the user and the last event that it was asked for, and
/// of this run. Without a user nothing is replayed.
pub proof fn subscriptions_are_what_was_asked_for<E>(
    m: SseModel<E>,
    user_id: Option<Seq<char>>,
    last: Option<Seq<char>>,
)
    ensures
        ({
            let sub = sse::subscription(m, user_id, last);
            &&& sub.boot_id == m.boot_id
            &&& sub.user_id == user_id
            &&& sub.last_event_id == last
            &&& user_id is None ==> sub.replay.len() == 0 && sub.replay_max_seq is None
            &&& user_id is Some && last is None ==> sub.replay == replay::kept(
                m.replay,
                user_id->0,
            )
        }),
{
    if user_id is Some && last is None {
        lemma_filter_all(
            replay::kept(m.replay, user_id->0),
            |e: EventModel<E>| event_id::event_after(last, e.id),
        );
    }
}

/// Only kept events of the subscriber's own user are replayed, and none that the
/// client has seen.
pub proof fn only_unseen_kept_events_are_replayed<E>(
    m: SseModel<E>,
    user: Seq<char>,
    last: Option<Seq<char>>,
    i: int,
)
    requires
        0 <= i < sse::subscription(m, Some(user), last).replay.len(),
    ensures
        m.replay.contains_key(user),
        m.replay[user].contains(sse::subscription(m, Some(user), last).replay[i]),
        event_id::event_after(last, sse::subscription(m, Some(user), last).replay[i].id),
{
    lemma_filter(
        replay::kept(m.replay, user),
        |e: EventModel<E>| event_id::event_after(last, e.id),
    );
}

/// The highest replayed number is that of a replayed event, and none is higher.
pub proof fn the_highest_replayed_number_is_a_replayed_one<E>(
    m: SseModel<E>,
    user_id: Option<Seq<char>>,
    last: Option<Seq<char>>,
    i: int,
)
    requires
        sse::sound(m),
        0 <= i < sse::subscription(m, user_id, last).replay.len(),
    ensures
        ({
            let sub = sse::subscription(m, user_id, last);
            &&& sub.replay_max_seq matches Some(high)
            &&& sse::seq_of(sub.replay[i]) <= high
            &&& exists|j: int|
                0 <= j < sub.replay.len() && sse::seq_of(#[trigger] sub.replay[j]) == high
        }),
{
    lemma_replayed(m, user_id, last);
    lemma_highest(m.boot_id, sse::replayed(m, user_id, last));
}

} // verus!
