use bastionclaw::json::{JsonNumber, JsonValue};
use bastionclaw::redact::{is_payroll_tool, redact_payroll_args, redact_payroll_result};

fn text(s: &str) -> JsonValue {
    JsonValue::Text(s.to_string())
}

fn number(n: u64) -> JsonValue {
    JsonValue::Number(JsonNumber::Unsigned(n))
}

fn object(entries: Vec<(&str, JsonValue)>) -> JsonValue {
    JsonValue::Object(entries.into_iter().map(|(k, v)| (k.to_string(), v)).collect())
}

fn array(items: Vec<JsonValue>) -> JsonValue {
    JsonValue::Array(items)
}

fn field<'a>(value: &'a JsonValue, key: &str) -> &'a JsonValue {
    value.get(key).expect("field")
}

#[test]
fn payroll_in_name_matches() {
    assert!(is_payroll_tool("runPayroll"));
    assert!(is_payroll_tool("t3n_run_payroll_computation"));
    assert!(is_payroll_tool("myPayrollTool"));
}

#[test]
fn explicit_names_match() {
    assert!(is_payroll_tool("t3n_validate_credentials"));
    assert!(is_payroll_tool("t3n_submit_escalation_resolutions"));
    assert!(is_payroll_tool("t3n_execute_disbursement"));
    assert!(is_payroll_tool("t3n_finalize_audit"));
}

#[test]
fn non_payroll_tool_does_not_match() {
    assert!(!is_payroll_tool("web_search"));
    assert!(!is_payroll_tool("memory_write"));
    assert!(!is_payroll_tool("shell"));
    assert!(!is_payroll_tool(""));
}

#[test]
fn payroll_matches_in_any_case_and_explicit_names_do_not() {
    assert!(is_payroll_tool("PAYROLL"));
    assert!(is_payroll_tool("xPaYrOlLx"));
    assert!(!is_payroll_tool("T3N_FINALIZE_AUDIT"));
    assert!(!is_payroll_tool("pay_roll"));
    assert!(!is_payroll_tool("payrol"));
}

#[test]
fn non_payroll_tool_args_returned_unchanged() {
    let args = object(vec![
        ("credential_jcs_b64u", text("secret-blob")),
        ("user_sig_b64u", text("sig-blob")),
        ("cycle_id", text("2025-01")),
    ]);
    let result = redact_payroll_args("web_search", &args);
    assert_eq!(result, args, "non-payroll tool args must not be modified");
}

#[test]
fn run_payroll_args_credential_fields_redacted() {
    let args = object(vec![
        ("credential_jcs_b64u", text("secret-blob")),
        ("user_sig_b64u", text("sig-blob")),
        ("agent_secret_hex", text("deadbeef")),
        ("cycle_id", text("2025-01")),
        ("org_did", text("did:ethr:0xabc")),
    ]);
    let sanitised = redact_payroll_args("runPayroll", &args);
    assert_eq!(
        field(&sanitised, "credential_jcs_b64u"),
        &text("<redacted>"),
        "credential_jcs_b64u must be redacted"
    );
    assert_eq!(
        field(&sanitised, "user_sig_b64u"),
        &text("<redacted>"),
        "user_sig_b64u must be redacted"
    );
    assert_eq!(
        field(&sanitised, "agent_secret_hex"),
        &text("<redacted>"),
        "agent_secret_hex must be redacted"
    );
}

#[test]
fn run_payroll_args_structural_fields_preserved() {
    let args = object(vec![
        ("credential_jcs_b64u", text("secret-blob")),
        ("user_sig_b64u", text("sig-blob")),
        ("cycle_id", text("2025-01")),
        ("org_did", text("did:ethr:0xabc")),
        ("pay_period_start", text("2025-01-01")),
        ("pay_period_end", text("2025-01-31")),
        ("batch_cap_cents", number(2500000)),
    ]);
    let sanitised = redact_payroll_args("runPayroll", &args);
    assert_eq!(field(&sanitised, "cycle_id"), &text("2025-01"), "cycle_id must survive");
    assert_eq!(
        field(&sanitised, "org_did"),
        &text("did:ethr:0xabc"),
        "org_did must survive"
    );
    assert_eq!(
        field(&sanitised, "pay_period_start"),
        &text("2025-01-01"),
        "pay_period_start must survive"
    );
    assert_eq!(
        field(&sanitised, "batch_cap_cents"),
        &number(2500000),
        "batch_cap_cents must survive"
    );
}

#[test]
fn run_payroll_args_absent_fields_not_inserted() {
    let args = object(vec![("cycle_id", text("2025-01"))]);
    let sanitised = redact_payroll_args("runPayroll", &args);
    assert!(sanitised.get("credential_jcs_b64u").is_none());
    assert_eq!(field(&sanitised, "cycle_id"), &text("2025-01"));
}

#[test]
fn non_object_args_returned_unchanged() {
    let args = array(vec![number(1), number(2), number(3)]);
    let result = redact_payroll_args("runPayroll", &args);
    assert_eq!(result, args, "non-object args must pass through unmodified");
}

#[test]
fn historical_baselines_are_redacted_in_place() {
    let args = object(vec![
        ("cycle_id", text("2025-01")),
        ("historical_baselines", array(vec![number(7), object(vec![("a", JsonValue::Null)])])),
        ("dry_run", JsonValue::Bool(true)),
        ("offset", JsonValue::Number(JsonNumber::Signed(-4))),
        ("rate", JsonValue::Number(JsonNumber::FloatBits(1.5f64.to_bits()))),
    ]);
    let expected = object(vec![
        ("cycle_id", text("2025-01")),
        ("historical_baselines", text("<redacted>")),
        ("dry_run", JsonValue::Bool(true)),
        ("offset", JsonValue::Number(JsonNumber::Signed(-4))),
        ("rate", JsonValue::Number(JsonNumber::FloatBits(1.5f64.to_bits()))),
    ]);
    assert_eq!(redact_payroll_args("t3n_finalize_audit", &args), expected);
}

#[test]
fn nested_secrets_are_not_searched_for() {
    let args = object(vec![(
        "inner",
        object(vec![("agent_secret_hex", text("deadbeef"))]),
    )]);
    assert_eq!(redact_payroll_args("runPayroll", &args), args);
}

#[test]
fn non_payroll_tool_result_returned_unchanged() {
    let result = object(vec![
        (
            "disbursement_records",
            array(vec![object(vec![("employee_id", text("E01")), ("status", text("paid"))])]),
        ),
        (
            "flagged_entries",
            array(vec![object(vec![
                ("employee_id", text("E02")),
                ("flag_reason", text("threshold")),
            ])]),
        ),
    ]);
    let sanitised = redact_payroll_result("web_search", &result);
    assert_eq!(sanitised, result, "non-payroll tool result must not be modified");
}

#[test]
fn run_payroll_result_arrays_replaced_with_count() {
    let result = object(vec![
        (
            "disbursement_records",
            array(vec![
                object(vec![
                    ("employee_id", text("E01")),
                    ("status", text("paid")),
                    ("reference", text("REF-001")),
                ]),
                object(vec![
                    ("employee_id", text("E02")),
                    ("status", text("paid")),
                    ("reference", text("REF-002")),
                ]),
            ]),
        ),
        (
            "flagged_entries",
            array(vec![object(vec![
                ("employee_id", text("E03")),
                ("flag_reason", text("terminated_in_active_run")),
            ])]),
        ),
        ("claims_digest", text("abc123")),
        ("status", text("success")),
    ]);
    let sanitised = redact_payroll_result("runPayroll", &result);
    assert_eq!(
        field(&sanitised, "disbursement_records"),
        &object(vec![("redacted_count", number(2))]),
        "disbursement_records must be replaced with count"
    );
    assert_eq!(
        field(&sanitised, "flagged_entries"),
        &object(vec![("redacted_count", number(1))]),
        "flagged_entries must be replaced with count"
    );
}

#[test]
fn run_payroll_result_non_sensitive_fields_survive() {
    let result = object(vec![
        ("disbursement_records", array(vec![])),
        ("flagged_entries", array(vec![])),
        ("claims_digest", text("abc123")),
        ("status", text("success")),
        ("run_id", text("run-42")),
        ("processed_count", number(2)),
        ("cycle_id", text("2025-01")),
        ("vc_cap_status", text("within_cap")),
    ]);
    let sanitised = redact_payroll_result("runPayroll", &result);
    assert_eq!(field(&sanitised, "claims_digest"), &text("abc123"), "claims_digest must survive");
    assert_eq!(field(&sanitised, "status"), &text("success"), "status must survive");
    assert_eq!(field(&sanitised, "run_id"), &text("run-42"), "run_id must survive");
    assert_eq!(field(&sanitised, "processed_count"), &number(2), "processed_count must survive");
    assert_eq!(field(&sanitised, "cycle_id"), &text("2025-01"), "cycle_id must survive");
    assert_eq!(
        field(&sanitised, "vc_cap_status"),
        &text("within_cap"),
        "vc_cap_status must survive"
    );
}

#[test]
fn run_payroll_result_empty_arrays_give_zero_count() {
    let result = object(vec![
        ("disbursement_records", array(vec![])),
        ("flagged_entries", array(vec![])),
    ]);
    let sanitised = redact_payroll_result("runPayroll", &result);
    assert_eq!(
        field(field(&sanitised, "disbursement_records"), "redacted_count"),
        &number(0)
    );
    assert_eq!(field(field(&sanitised, "flagged_entries"), "redacted_count"), &number(0));
}

#[test]
fn non_object_result_returned_unchanged() {
    let result = text("plain string result");
    let sanitised = redact_payroll_result("runPayroll", &result);
    assert_eq!(sanitised, result, "non-object result must pass through unmodified");
}

#[test]
fn redaction_twice_is_redaction_once() {
    let value = object(vec![
        ("agent_secret_hex", text("deadbeef")),
        ("flagged_entries", array(vec![number(1)])),
        ("disbursement_records", text("not an array")),
    ]);
    let args = redact_payroll_args("runPayroll", &value);
    assert_eq!(redact_payroll_args("runPayroll", &args), args);
    let result = redact_payroll_result("runPayroll", &value);
    assert_eq!(redact_payroll_result("runPayroll", &result), result);
    assert_eq!(field(&result, "disbursement_records"), &text("not an array"));
    assert_eq!(field(&result, "agent_secret_hex"), &text("deadbeef"));
}
