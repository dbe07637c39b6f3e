use bastionclaw::adoption::{AuthAdoptionCounter, AuthVerifier};
use std::sync::{Arc, Mutex};

#[test]
fn label_strings_match_spec() {
    assert_eq!(AuthVerifier::TrinityIdToken.label(), "trinity_id_token");
    assert_eq!(AuthVerifier::LegacyBearer.label(), "legacy_bearer");
    assert_eq!(AuthVerifier::LegacyOidc.label(), "legacy_oidc");
}

#[test]
fn record_increments_only_the_tagged_label() {
    let mut counter = AuthAdoptionCounter::new();
    counter.record(AuthVerifier::TrinityIdToken);
    counter.record(AuthVerifier::TrinityIdToken);
    counter.record(AuthVerifier::LegacyBearer);

    assert_eq!(counter.get(AuthVerifier::TrinityIdToken), 2);
    assert_eq!(counter.get(AuthVerifier::LegacyBearer), 1);
    assert_eq!(counter.get(AuthVerifier::LegacyOidc), 0);
}

#[test]
fn shared_arc_is_observed_by_all_holders() {
    let counter = Arc::new(Mutex::new(AuthAdoptionCounter::new()));
    let clone = Arc::clone(&counter);
    clone.lock().unwrap().record(AuthVerifier::LegacyOidc);
    assert_eq!(counter.lock().unwrap().get(AuthVerifier::LegacyOidc), 1);
}

#[test]
fn record_returns_the_running_total() {
    let mut counter = AuthAdoptionCounter::default();
    assert_eq!(counter.record(AuthVerifier::LegacyBearer), 1);
    assert_eq!(counter.record(AuthVerifier::LegacyOidc), 1);
    assert_eq!(counter.record(AuthVerifier::LegacyBearer), 2);
    assert_eq!(counter.record(AuthVerifier::LegacyBearer), 3);
    assert_eq!(counter.get(AuthVerifier::TrinityIdToken), 0);
}
