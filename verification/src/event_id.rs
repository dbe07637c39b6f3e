//! Event ids: the id of the process run, a colon, and a sequence number.

use crate::text;
use crate::text::{decimal_u64, parse_u64, same_text, split_once};
use vstd::prelude::*;

verus! {

/// The id of event number `seq` of the run `boot`.
pub open spec fn event_id(boot: Seq<char>, seq: u64) -> Seq<char> {
    boot + seq![':'] + text::decimal(seq as nat)
}

/// The run and the sequence number that an id names, if it is one: what stands
/// before the first colon, and the number after it.
pub open spec fn parsed_event_id(id: Seq<char>) -> Option<(Seq<char>, u64)> {
    match text::first_split(id, ':') {
        Some((boot, rest)) => match text::parsed_u64(rest) {
            Some(seq) => Some((boot, seq)),
            None => None,
        },
        None => None,
    }
}

/// Whether a client that last saw `last` has yet to see `current`: both ids are
/// of one run and `current` is the later, or the two cannot be compared.
pub open spec fn event_after(last: Option<Seq<char>>, current: Seq<char>) -> bool {
    match last {
        Some(last) => match (parsed_event_id(last), parsed_event_id(current)) {
            (Some((last_boot, last_seq)), Some((current_boot, current_seq))) => last_boot
                != current_boot || current_seq > last_seq,
            _ => true,
        },
        None => true,
    }
}

/// Put an event id together.
pub fn make_event_id(boot: &str, seq: u64) -> (id: String)
    ensures
        id@ == event_id(boot@, seq),
{
    let mut id: String = boot.to_owned();
    id.push(':');
    id.append(decimal_u64(seq).as_str());
    assert(id@ =~= event_id(boot@, seq));
    id
}

/// Take an event id apart.
pub fn parse_event_id<'a>(id: &'a str) -> (r: Option<(&'a str, u64)>)
    ensures
        match r {
            Some((boot, seq)) => parsed_event_id(id@) == Some((boot@, seq)),
            None => parsed_event_id(id@) is None,
        },
{
    match split_once(id, ':') {
        Some((boot, rest)) => match parse_u64(rest) {
            Some(seq) => Some((boot, seq)),
            None => None,
        },
        None => None,
    }
}

/// Whether a client that last saw `last_event_id` has yet to see the event with
/// id `current_event_id`.
pub fn is_event_after(last_event_id: Option<&str>, current_event_id: &str) -> (after: bool)
    ensures
        after == event_after(last_event_id.deep_view(), current_event_id@),
{
    let last: &str = match last_event_id {
        Some(last) => last,
        None => return true,
    };
    let (last_boot, last_seq) = match parse_event_id(last) {
        Some(parsed) => parsed,
        None => return true,
    };
    let (current_boot, current_seq) = match parse_event_id(current_event_id) {
        Some(parsed) => parsed,
        None => return true,
    };
    if !same_text(last_boot, current_boot) {
        return true;
    }
    current_seq > last_seq
}

/// An id names the run and the number that it was made of, for every run whose
/// id holds no colon.
pub proof fn event_ids_read_back(boot: Seq<char>, seq: u64)
    requires
        !boot.contains(':'),
    ensures
        parsed_event_id(event_id(boot, seq)) == Some((boot, seq)),
{
    text::joined_texts_are_cut_at_the_separator(boot, ':', text::decimal(seq as nat));
    text::decimal_reads_back(seq);
}

/// Of two events of one run exactly the later is after the other.
pub proof fn later_events_of_a_run_are_after(boot: Seq<char>, last: u64, current: u64)
    requires
        !boot.contains(':'),
    ensures
        event_after(Some(event_id(boot, last)), event_id(boot, current)) == (current > last),
{
    event_ids_read_back(boot, last);
    event_ids_read_back(boot, current);
}

/// An event of another run is always after: a restart hides nothing.
pub proof fn other_runs_hide_nothing(
    old_boot: Seq<char>,
    last: u64,
    new_boot: Seq<char>,
    current: u64,
)
    requires
        !old_boot.contains(':'),
        !new_boot.contains(':'),
        old_boot != new_boot,
    ensures
        event_after(Some(event_id(old_boot, last)), event_id(new_boot, current)),
{
    event_ids_read_back(old_boot, last);
    event_ids_read_back(new_boot, current);
}

/// An id is taken apart at its first colon: what stands before it is the run, and
/// what stands after it has to be a number. A text without a colon is no id.
pub proof fn ids_are_taken_apart_at_the_first_colon(boot: Seq<char>, rest: Seq<char>)
    requires
        !boot.contains(':'),
    ensures
        parsed_event_id(boot) is None,
        parsed_event_id(boot + seq![':'] + rest) == (match text::parsed_u64(rest) {
            Some(seq) => Some((boot, seq)),
            None => None,
        }),
{
    text::first_split_loses_nothing(boot, ':');
    text::joined_texts_are_cut_at_the_separator(boot, ':', rest);
}

/// An event is hidden from a client exactly where both ids can be taken apart,
/// are of one run, and the event is not later than what the client last saw.
pub proof fn only_earlier_events_of_one_run_are_hidden(
    last: Option<Seq<char>>,
    current: Seq<char>,
)
    ensures
        !event_after(last, current) <==> {
            &&& last is Some
            &&& parsed_event_id(last->0) is Some
            &&& parsed_event_id(current) is Some
            &&& (parsed_event_id(last->0)->0).0 == (parsed_event_id(current)->0).0
            &&& (parsed_event_id(current)->0).1 <= (parsed_event_id(last->0)->0).1
        },
{
}

} // verus!
