//! JSON values.

use crate::text::same_text;
use vstd::prelude::*;

verus! {

/// A JSON number. A fraction is held by the bits of its double-precision form.
#[derive(Debug, Clone, Copy, PartialEq, Eq)]
pub enum JsonNumber {
    Unsigned(u64),
    Signed(i64),
    FloatBits(u64),
}

/// A JSON value. The entries of an object stand in the order in which they are
/// written.
#[derive(Debug, PartialEq, Eq)]
pub enum JsonValue {
    Null,
    Bool(bool),
    Number(JsonNumber),
    Text(String),
    Array(Vec<JsonValue>),
    Object(Vec<(String, JsonValue)>),
}

/// [`JsonValue`] as contracts speak of it.
pub enum JsonModel {
    Null,
    Bool(bool),
    Number(JsonNumber),
    Text(Seq<char>),
    Array(Seq<JsonModel>),
    Object(Seq<(Seq<char>, JsonModel)>),
}

/// The model of a JSON value.
pub open spec fn model(value: JsonValue) -> JsonModel
    decreases value,
{
    match value {
        JsonValue::Null => JsonModel::Null,
        JsonValue::Bool(b) => JsonModel::Bool(b),
        JsonValue::Number(n) => JsonModel::Number(n),
        JsonValue::Text(s) => JsonModel::Text(s@),
        JsonValue::Array(items) => JsonModel::Array(
            Seq::new(
                items@.len(),
                |i: int|
                    if 0 <= i < items@.len() {
                        model(items@[i])
                    } else {
                        JsonModel::Null
                    },
            ),
        ),
        JsonValue::Object(entries) => JsonModel::Object(
            Seq::new(
                entries@.len(),
                |i: int|
                    if 0 <= i < entries@.len() {
                        (entries@[i].0@, model(entries@[i].1))
                    } else {
                        (Seq::empty(), JsonModel::Null)
                    },
            ),
        ),
    }
}

impl View for JsonValue {
    type V = JsonModel;

    open spec fn view(&self) -> JsonModel {
        model(*self)
    }
}

/// The models of the items of an array.
pub open spec fn items_model(items: Seq<JsonValue>) -> Seq<JsonModel> {
    items.map_values(|v: JsonValue| model(v))
}

/// The models of the entries of an object.
pub open spec fn entries_model(entries: Seq<(String, JsonValue)>) -> Seq<(Seq<char>, JsonModel)> {
    entries.map_values(|e: (String, JsonValue)| (e.0@, model(e.1)))
}

/// An array's model holds the models of its items, and an object's those of its
/// entries.
pub proof fn model_of_parts(value: JsonValue)
    ensures
        value matches JsonValue::Array(items) ==> model(value) == JsonModel::Array(
            items_model(items@),
        ),
        value matches JsonValue::Object(entries) ==> model(value) == JsonModel::Object(
            entries_model(entries@),
        ),
{
    match value {
        JsonValue::Array(items) => {
            assert(model(value)->Array_0 =~= items_model(items@));
        },
        JsonValue::Object(entries) => {
            assert(model(value)->Object_0 =~= entries_model(entries@));
        },
        _ => {},
    }
}

/// What the first entry under `key` holds, where `value` is an object with one.
pub open spec fn entry(value: JsonModel, key: Seq<char>) -> Option<JsonModel> {
    match value {
        JsonModel::Object(entries) => entry_of(entries, key),
        _ => None,
    }
}

/// What the first of `entries` under `key` holds.
pub open spec fn entry_of(entries: Seq<(Seq<char>, JsonModel)>, key: Seq<char>) -> Option<JsonModel>
    decreases entries.len(),
{
    if entries.len() == 0 {
        None
    } else if entries[0].0 == key {
        Some(entries[0].1)
    } else {
        entry_of(entries.skip(1), key)
    }
}

impl JsonValue {
    /// An exact copy.
    pub fn duplicate(&self) -> (r: JsonValue)
        ensures
            r@ == self@,
        decreases self,
    {
        match self {
            JsonValue::Null => JsonValue::Null,
            JsonValue::Bool(b) => JsonValue::Bool(*b),
            JsonValue::Number(n) => JsonValue::Number(*n),
            JsonValue::Text(s) => JsonValue::Text(s.clone()),
            JsonValue::Array(items) => {
                let mut out: Vec<JsonValue> = Vec::new();
                let mut i: usize = 0;
                while i < items.len()
                    invariant
                        i <= items@.len(),
                        *self == JsonValue::Array(*items),
                        items_model(out@) == items_model(items@).take(i as int),
                    decreases items@.len() - i,
                {
                    proof {
                        assert(decreases_to!(*self => self->Array_0));
                        assert(decreases_to!(*items => items@));
                        assert(decreases_to!(items@ => items@[i as int]));
                    }
                    let item: JsonValue = items[i].duplicate();
                    let ghost before = out@;
                    out.push(item);
                    assert(items_model(out@) =~= items_model(before).push(model(item)));
                    assert(items_model(items@).take(i + 1) =~= items_model(items@).take(
                        i as int,
                    ).push(model(items@[i as int])));
                    i = i + 1;
                }
                assert(items_model(items@).take(i as int) =~= items_model(items@));
                let r: JsonValue = JsonValue::Array(out);
                proof {
                    model_of_parts(r);
                    model_of_parts(*self);
                }
                r
            },
            JsonValue::Object(entries) => {
                let mut out: Vec<(String, JsonValue)> = Vec::new();
                let mut i: usize = 0;
                while i < entries.len()
                    invariant
                        i <= entries@.len(),
                        *self == JsonValue::Object(*entries),
                        entries_model(out@) == entries_model(entries@).take(i as int),
                    decreases entries@.len() - i,
                {
                    proof {
                        assert(decreases_to!(*self => self->Object_0));
                        assert(decreases_to!(*entries => entries@));
                        assert(decreases_to!(entries@ => entries@[i as int]));
                        assert(decreases_to!(entries@[i as int] => entries@[i as int].1));
                    }
                    let item: (String, JsonValue) = (
                        entries[i].0.clone(),
                        entries[i].1.duplicate(),
                    );
                    let ghost before = out@;
                    out.push(item);
                    assert(entries_model(out@) =~= entries_model(before).push(
                        (item.0@, model(item.1)),
                    ));
                    assert(entries_model(entries@).take(i + 1) =~= entries_model(entries@).take(
                        i as int,
                    ).push((entries@[i as int].0@, model(entries@[i as int].1))));
                    i = i + 1;
                }
                assert(entries_model(entries@).take(i as int) =~= entries_model(entries@));
                let r: JsonValue = JsonValue::Object(out);
                proof {
                    model_of_parts(r);
                    model_of_parts(*self);
                }
                r
            },
        }
    }

    /// What the first entry under `key` holds, where this is an object with one.
    pub fn get(&self, key: &str) -> (r: Option<&JsonValue>)
        ensures
            match r {
                Some(v) => entry(self@, key@) == Some(v@),
                None => entry(self@, key@) is None,
            },
    {
        let entries: &Vec<(String, JsonValue)> = match self {
            JsonValue::Object(entries) => entries,
            _ => return None,
        };
        let mut i: usize = 0;
        let ghost all = entries_model(entries@);
        proof {
            model_of_parts(*self);
            assert(all.skip(0) =~= all);
        }
        while i < entries.len()
            invariant
                i <= entries@.len(),
                all == entries_model(entries@),
                self@ == JsonModel::Object(all),
                entry(self@, key@) == entry_of(all.skip(i as int), key@),
            decreases entries@.len() - i,
        {
            assert(all.skip(i as int).skip(1) =~= all.skip(i + 1));
            if same_text(entries[i].0.as_str(), key) {
                return Some(&entries[i].1);
            }
            i = i + 1;
        }
        None
    }

    /// The text that this value is, where it is one.
    pub fn as_str(&self) -> (r: Option<&str>)
        ensures
            match r {
                Some(s) => self@ == JsonModel::Text(s@),
                None => !(self@ is Text),
            },
    {
        match self {
            JsonValue::Text(s) => Some(s.as_str()),
            _ => None,
        }
    }
}

/// An entry is found by its key, wherever it stands, as long as no earlier one
/// has the same key.
pub proof fn entries_are_found_by_their_keys(entries: Seq<(Seq<char>, JsonModel)>, i: int)
    requires
        0 <= i < entries.len(),
        forall|j: int| 0 <= j < i ==> (#[trigger] entries[j]).0 != entries[i].0,
    ensures
        entry(JsonModel::Object(entries), entries[i].0) == Some(entries[i].1),
    decreases i,
{
    if i > 0 {
        let rest = entries.skip(1);
        assert forall|j: int| 0 <= j < i - 1 implies (#[trigger] rest[j]).0 != rest[i - 1].0 by {
            assert(rest[j] == entries[j + 1]);
        }
        entries_are_found_by_their_keys(rest, i - 1);
        assert(entries[0].0 != entries[i].0);
    }
}

/// Nothing is found under a key that no entry has, nor in a value that is no
/// object.
pub proof fn nothing_is_found_under_other_keys(value: JsonModel, key: Seq<char>)
    requires
        value matches JsonModel::Object(entries) ==> forall|j: int|
            0 <= j < entries.len() ==> (#[trigger] entries[j]).0 != key,
    ensures
        entry(value, key) is None,
{
    if let JsonModel::Object(entries) = value {
        lemma_no_entry(entries, key);
    }
}

proof fn lemma_no_entry(entries: Seq<(Seq<char>, JsonModel)>, key: Seq<char>)
    requires
        forall|j: int| 0 <= j < entries.len() ==> (#[trigger] entries[j]).0 != key,
    ensures
        entry_of(entries, key) is None,
    decreases entries.len(),
{
    if entries.len() > 0 {
        let rest = entries.skip(1);
        assert forall|j: int| 0 <= j < rest.len() implies (#[trigger] rest[j]).0 != key by {
            assert(rest[j] == entries[j + 1]);
        }
        lemma_no_entry(rest, key);
        assert(entries[0].0 != key);
    }
}

/// Values without parts are modelled as what they hold.
pub proof fn model_of_plain_values(b: bool, n: JsonNumber, s: String)
    ensures
        model(JsonValue::Null) == JsonModel::Null,
        model(JsonValue::Bool(b)) == JsonModel::Bool(b),
        model(JsonValue::Number(n)) == JsonModel::Number(n),
        model(JsonValue::Text(s)) == JsonModel::Text(s@),
{
}

} // verus!
