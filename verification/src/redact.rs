//! Redaction for the payroll tool family.
//!
//! Payroll tool calls carry credential material in their arguments, and long
//! arrays of entries per employee in their results. The copies made here are
//! for log output only.

use crate::json::{JsonModel, JsonNumber, JsonValue};
use crate::json;
use crate::text;
use crate::text::{contains_part, lowered_chars, same_text};
use vstd::prelude::*;

verus! {

/// A tool of the payroll family: the name holds "payroll" in any case, or is one
/// of the names that the family is known by.
pub open spec fn payroll_tool(name: Seq<char>) -> bool {
    ||| text::has_part(text::lowered(name), "payroll"@)
    ||| name == "t3n_validate_credentials"@
    ||| name == "t3n_run_payroll_computation"@
    ||| name == "t3n_submit_escalation_resolutions"@
    ||| name == "t3n_execute_disbursement"@
    ||| name == "t3n_finalize_audit"@
    ||| name == "runPayroll"@
}

/// The fields of the arguments that must never appear in log output.
pub open spec fn secret_field(name: Seq<char>) -> bool {
    ||| name == "credential_jcs_b64u"@
    ||| name == "user_sig_b64u"@
    ||| name == "agent_secret_hex"@
    ||| name == "historical_baselines"@
}

/// The fields of a result of which only the count of entries is logged.
pub open spec fn counted_field(name: Seq<char>) -> bool {
    ||| name == "disbursement_records"@
    ||| name == "flagged_entries"@
}

/// An entry of the arguments as it is logged.
pub open spec fn redacted_arg(e: (Seq<char>, JsonModel)) -> (Seq<char>, JsonModel) {
    if secret_field(e.0) {
        (e.0, JsonModel::Text("<redacted>"@))
    } else {
        e
    }
}

/// An entry of a result as it is logged.
pub open spec fn redacted_entry(e: (Seq<char>, JsonModel)) -> (Seq<char>, JsonModel) {
    if counted_field(e.0) {
        match e.1 {
            JsonModel::Array(items) => (
                e.0,
                JsonModel::Object(
                    seq![
                        (
                            "redacted_count"@,
                            JsonModel::Number(JsonNumber::Unsigned(items.len() as u64)),
                        ),
                    ],
                ),
            ),
            _ => e,
        }
    } else {
        e
    }
}

/// The arguments of a call of `tool` as they are logged.
pub open spec fn redacted_args(tool: Seq<char>, args: JsonModel) -> JsonModel {
    match args {
        JsonModel::Object(entries) => if payroll_tool(tool) {
            JsonModel::Object(entries.map_values(|e: (Seq<char>, JsonModel)| redacted_arg(e)))
        } else {
            args
        },
        _ => args,
    }
}

/// The result of a call of `tool` as it is logged.
pub open spec fn redacted_result(tool: Seq<char>, result: JsonModel) -> JsonModel {
    match result {
        JsonModel::Object(entries) => if payroll_tool(tool) {
            JsonModel::Object(entries.map_values(|e: (Seq<char>, JsonModel)| redacted_entry(e)))
        } else {
            result
        },
        _ => result,
    }
}

fn is_secret_field(name: &str) -> (r: bool)
    ensures
        r == secret_field(name@),
{
    same_text(name, "credential_jcs_b64u") || same_text(name, "user_sig_b64u") || same_text(
        name,
        "agent_secret_hex",
    ) || same_text(name, "historical_baselines")
}

fn is_counted_field(name: &str) -> (r: bool)
    ensures
        r == counted_field(name@),
{
    same_text(name, "disbursement_records") || same_text(name, "flagged_entries")
}

/// Whether `tool_name` belongs to the payroll tool family.
pub fn is_payroll_tool(tool_name: &str) -> (r: bool)
    ensures
        r == payroll_tool(tool_name@),
{
    let lower: Vec<char> = lowered_chars(tool_name);
    let part: Vec<char> = vec!['p', 'a', 'y', 'r', 'o', 'l', 'l'];
    proof {
        reveal_strlit("payroll");
        assert(part@ =~= "payroll"@);
    }
    contains_part(&lower, &part) || same_text(tool_name, "t3n_validate_credentials") || same_text(
        tool_name,
        "t3n_run_payroll_computation",
    ) || same_text(tool_name, "t3n_submit_escalation_resolutions") || same_text(
        tool_name,
        "t3n_execute_disbursement",
    ) || same_text(tool_name, "t3n_finalize_audit") || same_text(tool_name, "runPayroll")
}

/// A copy of `args` that is safe to log: for a payroll tool every secret field
/// reads `<redacted>`, and all else is kept as it is.
pub fn redact_payroll_args(tool_name: &str, args: &JsonValue) -> (r: JsonValue)
    ensures
        r@ == redacted_args(tool_name@, args@),
{
    if !is_payroll_tool(tool_name) {
        return args.duplicate();
    }
    let entries: &Vec<(String, JsonValue)> = match args {
        JsonValue::Object(entries) => entries,
        _ => {
            return args.duplicate();
        },
    };
    let mut out: Vec<(String, JsonValue)> = Vec::new();
    let ghost all = json::entries_model(entries@);
    let ghost f = |e: (Seq<char>, JsonModel)| redacted_arg(e);
    let mut i: usize = 0;
    while i < entries.len()
        invariant
            i <= entries@.len(),
            all == json::entries_model(entries@),
            f == (|e: (Seq<char>, JsonModel)| redacted_arg(e)),
            json::entries_model(out@) == all.take(i as int).map_values(f),
        decreases entries@.len() - i,
    {
        let value: JsonValue = if is_secret_field(entries[i].0.as_str()) {
            JsonValue::Text("<redacted>".to_owned())
        } else {
            entries[i].1.duplicate()
        };
        let ghost before = out@;
        let item: (String, JsonValue) = (entries[i].0.clone(), value);
        out.push(item);
        assert(json::entries_model(out@) =~= json::entries_model(before).push(
            (item.0@, json::model(item.1)),
        ));
        assert(all.take(i + 1).map_values(f) =~= all.take(i as int).map_values(f).push(
            redacted_arg(all[i as int]),
        ));
        i = i + 1;
    }
    assert(all.take(i as int) =~= all);
    let r: JsonValue = JsonValue::Object(out);
    proof {
        json::model_of_parts(r);
        json::model_of_parts(*args);
    }
    r
}

/// A copy of `result` that is safe to log: for a payroll tool every array of
/// entries per employee is replaced by its count, and all else is kept.
pub fn redact_payroll_result(tool_name: &str, result: &JsonValue) -> (r: JsonValue)
    ensures
        r@ == redacted_result(tool_name@, result@),
{
    if !is_payroll_tool(tool_name) {
        return result.duplicate();
    }
    let entries: &Vec<(String, JsonValue)> = match result {
        JsonValue::Object(entries) => entries,
        _ => {
            return result.duplicate();
        },
    };
    let mut out: Vec<(String, JsonValue)> = Vec::new();
    let ghost all = json::entries_model(entries@);
    let ghost f = |e: (Seq<char>, JsonModel)| redacted_entry(e);
    let mut i: usize = 0;
    while i < entries.len()
        invariant
            i <= entries@.len(),
            all == json::entries_model(entries@),
            f == (|e: (Seq<char>, JsonModel)| redacted_entry(e)),
            json::entries_model(out@) == all.take(i as int).map_values(f),
        decreases entries@.len() - i,
    {
        let value: JsonValue = redacted_value(entries[i].0.as_str(), &entries[i].1);
        let ghost before = out@;
        let item: (String, JsonValue) = (entries[i].0.clone(), value);
        out.push(item);
        assert(json::entries_model(out@) =~= json::entries_model(before).push(
            (item.0@, json::model(item.1)),
        ));
        assert(all.take(i + 1).map_values(f) =~= all.take(i as int).map_values(f).push(
            redacted_entry(all[i as int]),
        ));
        i = i + 1;
    }
    assert(all.take(i as int) =~= all);
    let r: JsonValue = JsonValue::Object(out);
    proof {
        json::model_of_parts(r);
        json::model_of_parts(*result);
    }
    r
}

/// What is logged of a result's field.
fn redacted_value(name: &str, value: &JsonValue) -> (r: JsonValue)
    ensures
        (name@, r@) == redacted_entry((name@, value@)),
{
    if !is_counted_field(name) {
        return value.duplicate();
    }
    match value {
        JsonValue::Array(items) => {
            let count: u64 = items.len() as u64;
            let entries: Vec<(String, JsonValue)> = vec![
                (
                    "redacted_count".to_owned(),
                    JsonValue::Number(JsonNumber::Unsigned(count)),
                ),
            ];
            let r: JsonValue = JsonValue::Object(entries);
            proof {
                json::model_of_parts(r);
                json::model_of_parts(*value);
                assert(json::entries_model(entries@) =~= seq![
                    ("redacted_count"@, JsonModel::Number(JsonNumber::Unsigned(count))),
                ]);
            }
            r
        },
        _ => value.duplicate(),
    }
}

/// No secret survives: what is logged of the arguments of a payroll tool holds
/// under every secret field the word `<redacted>` and nothing else.
pub proof fn no_secret_is_logged(tool: Seq<char>, args: JsonModel, i: int)
    requires
        payroll_tool(tool),
        redacted_args(tool, args) matches JsonModel::Object(logged) && 0 <= i < logged.len()
            && secret_field(logged[i].0),
    ensures
        redacted_args(tool, args)->Object_0[i].1 == JsonModel::Text("<redacted>"@),
{
}

/// What is logged of the arguments does not depend on what the secret fields
/// hold.
pub proof fn logged_args_do_not_depend_on_secrets(
    tool: Seq<char>,
    a: Seq<(Seq<char>, JsonModel)>,
    b: Seq<(Seq<char>, JsonModel)>,
)
    requires
        payroll_tool(tool),
        a.len() == b.len(),
        forall|i: int|
            0 <= i < a.len() ==> (#[trigger] a[i]).0 == b[i].0 && (secret_field(a[i].0) || a[i].1
                == b[i].1),
    ensures
        redacted_args(tool, JsonModel::Object(a)) == redacted_args(tool, JsonModel::Object(b)),
{
    assert(redacted_args(tool, JsonModel::Object(a))->Object_0 =~= redacted_args(
        tool,
        JsonModel::Object(b),
    )->Object_0);
}

/// What is logged of a result depends on the arrays of entries per employee only
/// through their lengths.
pub proof fn logged_result_depends_on_counts_alone(
    tool: Seq<char>,
    a: Seq<(Seq<char>, JsonModel)>,
    b: Seq<(Seq<char>, JsonModel)>,
)
    requires
        payroll_tool(tool),
        a.len() == b.len(),
        forall|i: int|
            0 <= i < a.len() ==> {
                &&& (#[trigger] a[i]).0 == b[i].0
                &&& a[i].1 == b[i].1 || {
                    &&& counted_field(a[i].0)
                    &&& a[i].1 is Array
                    &&& b[i].1 is Array
                    &&& a[i].1->Array_0.len() == b[i].1->Array_0.len()
                }
            },
    ensures
        redacted_result(tool, JsonModel::Object(a)) == redacted_result(tool, JsonModel::Object(b)),
{
    assert(redacted_result(tool, JsonModel::Object(a))->Object_0 =~= redacted_result(
        tool,
        JsonModel::Object(b),
    )->Object_0);
}

/// Every field keeps its name and its place, and a field that is not secret
/// keeps its value.
pub proof fn other_args_are_kept(tool: Seq<char>, entries: Seq<(Seq<char>, JsonModel)>, i: int)
    requires
        0 <= i < entries.len(),
    ensures
        redacted_args(tool, JsonModel::Object(entries)) matches JsonModel::Object(logged)
            && logged.len() == entries.len() && logged[i].0 == entries[i].0 && (!secret_field(
            entries[i].0,
        ) ==> logged[i] == entries[i]),
{
}

/// Every field of a result keeps its name and its place, and one that is not an
/// array of entries per employee keeps its value.
pub proof fn other_results_are_kept(tool: Seq<char>, entries: Seq<(Seq<char>, JsonModel)>, i: int)
    requires
        0 <= i < entries.len(),
    ensures
        redacted_result(tool, JsonModel::Object(entries)) matches JsonModel::Object(logged)
            && logged.len() == entries.len() && logged[i].0 == entries[i].0 && (!counted_field(
            entries[i].0,
        ) || !(entries[i].1 is Array) ==> logged[i] == entries[i]),
{
}

/// Other tools, and values that are no objects, are logged as they are.
pub proof fn other_values_are_logged_unchanged(tool: Seq<char>, value: JsonModel)
    requires
        !payroll_tool(tool) || !(value is Object),
    ensures
        redacted_args(tool, value) == value,
        redacted_result(tool, value) == value,
{
}

/// To redact twice is to redact once.
pub proof fn redaction_is_idempotent(tool: Seq<char>, value: JsonModel)
    ensures
        redacted_args(tool, redacted_args(tool, value)) == redacted_args(tool, value),
        redacted_result(tool, redacted_result(tool, value)) == redacted_result(tool, value),
{
    if payroll_tool(tool) && value is Object {
        assert(redacted_args(tool, redacted_args(tool, value))->Object_0 =~= redacted_args(
            tool,
            value,
        )->Object_0);
        assert(redacted_result(tool, redacted_result(tool, value))->Object_0 =~= redacted_result(
            tool,
            value,
        )->Object_0);
    }
}

/// The case of the letters does not decide whether a name holds "payroll".
pub proof fn payroll_is_found_in_any_case(name: Seq<char>)
    requires
        text::has_part(text::lowered(name), "payroll"@),
    ensures
        payroll_tool(name),
        payroll_tool(text::lowered(name)),
{
    assert(text::lowered(text::lowered(name)) =~= text::lowered(name)) by {
        assert forall|c: char| #[trigger]
            text::ascii_lower(text::ascii_lower(c)) == text::ascii_lower(c) by {
            if 'A' <= c && c <= 'Z' {
                let d = (c as u32 + 32) as char;
                assert(d as u32 == c as u32 + 32);
            }
        }
    }
}

/// An array of entries per employee is logged as its length and nothing else,
/// whatever that length is: under its own name stands an object with the one
/// field `redacted_count`.
pub proof fn arrays_are_logged_as_their_lengths(
    tool: Seq<char>,
    before: Seq<(Seq<char>, JsonModel)>,
    name: Seq<char>,
    items: Seq<JsonModel>,
    after: Seq<(Seq<char>, JsonModel)>,
)
    requires
        payroll_tool(tool),
        name == "disbursement_records"@ || name == "flagged_entries"@,
        items.len() <= u64::MAX,
    ensures
        ({
            let entries = before.push((name, JsonModel::Array(items))) + after;
            &&& redacted_result(tool, JsonModel::Object(entries)) matches JsonModel::Object(logged)
            &&& logged.len() == before.len() + 1 + after.len()
            &&& logged[before.len() as int].0 == name
            &&& logged[before.len() as int].1 matches JsonModel::Object(fields)
            &&& fields.len() == 1
            &&& fields[0].0 == "redacted_count"@
            &&& fields[0].1 matches JsonModel::Number(JsonNumber::Unsigned(count))
            &&& count as nat == items.len()
        }),
{
}

/// Two results whose arrays differ in length are logged differently.
pub proof fn different_counts_are_logged_differently(
    tool: Seq<char>,
    a: Seq<(Seq<char>, JsonModel)>,
    b: Seq<(Seq<char>, JsonModel)>,
    i: int,
)
    requires
        payroll_tool(tool),
        0 <= i < a.len(),
        a.len() == b.len(),
        a[i].0 == b[i].0,
        a[i].0 == "disbursement_records"@ || a[i].0 == "flagged_entries"@,
        a[i].1 is Array,
        b[i].1 is Array,
        a[i].1->Array_0.len() != b[i].1->Array_0.len(),
        a[i].1->Array_0.len() <= u64::MAX,
        b[i].1->Array_0.len() <= u64::MAX,
    ensures
        redacted_result(tool, JsonModel::Object(a)) != redacted_result(tool, JsonModel::Object(b)),
{
    let x = redacted_result(tool, JsonModel::Object(a))->Object_0[i];
    let y = redacted_result(tool, JsonModel::Object(b))->Object_0[i];
    let n = a[i].1->Array_0.len();
    let k = b[i].1->Array_0.len();
    assert(x.1->Object_0[0].1 == JsonModel::Number(JsonNumber::Unsigned(n as u64)));
    assert(y.1->Object_0[0].1 == JsonModel::Number(JsonNumber::Unsigned(k as u64)));
}

/// Four fields of the arguments are secret, and under these the log of a payroll
/// tool reads `<redacted>`, whatever they hold. Every other field, and every
/// field of another tool, is logged as it is.
pub proof fn four_fields_of_the_arguments_are_secret(
    tool: Seq<char>,
    entries: Seq<(Seq<char>, JsonModel)>,
    i: int,
)
    requires
        0 <= i < entries.len(),
    ensures
        ({
            let name = entries[i].0;
            let secret = name == "credential_jcs_b64u"@ || name == "user_sig_b64u"@ || name
                == "agent_secret_hex"@ || name == "historical_baselines"@;
            &&& redacted_args(tool, JsonModel::Object(entries)) matches JsonModel::Object(logged)
            &&& logged.len() == entries.len()
            &&& payroll_tool(tool) && secret ==> logged[i] == (
                name,
                JsonModel::Text("<redacted>"@),
            )
            &&& !payroll_tool(tool) || !secret ==> logged[i] == entries[i]
        }),
{
}

/// Two fields of a result are logged as counts, where they hold arrays. Every
/// other field, and every field of another tool, is logged as it is.
pub proof fn two_fields_of_a_result_are_counted(
    tool: Seq<char>,
    entries: Seq<(Seq<char>, JsonModel)>,
    i: int,
)
    requires
        0 <= i < entries.len(),
    ensures
        ({
            let name = entries[i].0;
            let counted = (name == "disbursement_records"@ || name == "flagged_entries"@)
                && entries[i].1 is Array;
            &&& redacted_result(tool, JsonModel::Object(entries)) matches JsonModel::Object(logged)
            &&& logged.len() == entries.len()
            &&& !payroll_tool(tool) || !counted ==> logged[i] == entries[i]
            &&& payroll_tool(tool) && counted ==> logged[i] != entries[i]
        }),
{
}

/// A tool is of the payroll family wherever the word stands in its name.
pub proof fn names_with_the_word_are_payroll_tools(before: Seq<char>, after: Seq<char>)
    ensures
        payroll_tool(before + "payroll"@ + after),
        payroll_tool(before + "Payroll"@ + after),
        payroll_tool(before + "PAYROLL"@ + after),
{
    reveal_strlit("payroll");
    reveal_strlit("Payroll");
    reveal_strlit("PAYROLL");
    assert(text::lowered("payroll"@) =~= "payroll"@);
    assert(text::lowered("Payroll"@) =~= "payroll"@);
    assert(text::lowered("PAYROLL"@) =~= "payroll"@);
    let (x, y) = (text::lowered(before), text::lowered(after));
    text::parts_are_found_wherever_they_stand(x, "payroll"@, y);
    assert(text::lowered(before + "payroll"@ + after) =~= x + "payroll"@ + y);
    assert(text::lowered(before + "Payroll"@ + after) =~= x + "payroll"@ + y);
    assert(text::lowered(before + "PAYROLL"@ + after) =~= x + "payroll"@ + y);
}

/// A name of the payroll family has the word in it, in whatever case, or is one
/// of the four that lack it.
pub proof fn payroll_tools_have_the_word_or_a_known_name(name: Seq<char>)
    ensures
        payroll_tool(name) <==> {
            ||| name == "t3n_validate_credentials"@
            ||| name == "t3n_submit_escalation_resolutions"@
            ||| name == "t3n_execute_disbursement"@
            ||| name == "t3n_finalize_audit"@
            ||| exists|before: Seq<char>, after: Seq<char>|
                text::lowered(name) == #[trigger] (before + "payroll"@ + after)
        },
{
    let low = text::lowered(name);
    if text::has_part(low, "payroll"@) {
        let (x, y) = text::found_parts_stand_somewhere(low, "payroll"@);
        assert(low == x + "payroll"@ + y);
    }
    if exists|before: Seq<char>, after: Seq<char>| low == #[trigger] (before + "payroll"@ + after) {
        let (x, y) = choose|before: Seq<char>, after: Seq<char>|
            low == #[trigger] (before + "payroll"@ + after);
        text::parts_are_found_wherever_they_stand(x, "payroll"@, y);
    }
    reveal_strlit("payroll");
    if name == "runPayroll"@ {
        reveal_strlit("runPayroll");
        reveal_strlit("run");
        assert(low =~= "run"@ + "payroll"@ + Seq::<char>::empty());
    }
    if name == "t3n_run_payroll_computation"@ {
        reveal_strlit("t3n_run_payroll_computation");
        reveal_strlit("t3n_run_");
        reveal_strlit("_computation");
        assert(low =~= "t3n_run_"@ + "payroll"@ + "_computation"@);
    }
}

} // verus!
