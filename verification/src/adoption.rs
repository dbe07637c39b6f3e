//! Adoption counter for the gateway's authentication.
//!
//! Counts `claw_authn_requests_total{verifier}`: the successful authentications
//! of each verifier branch. The legacy branches may go once almost all requests
//! are served by the preferred one.

use vstd::prelude::*;

verus! {

/// The branch that produced a successful authentication. Failures are not
/// counted.
#[derive(Debug, Clone, Copy, PartialEq, Eq, Structural)]
pub enum AuthVerifier {
    /// The ES256K ID-token verifier, which is the preferred branch.
    TrinityIdToken,
    /// A bearer token in memory or in the database. Deprecated.
    LegacyBearer,
    /// An OIDC token of a reverse proxy. Deprecated.
    LegacyOidc,
}

impl AuthVerifier {
    /// The label under which the branch is counted.
    pub open spec fn spec_label(self) -> Seq<char> {
        match self {
            AuthVerifier::TrinityIdToken => "trinity_id_token"@,
            AuthVerifier::LegacyBearer => "legacy_bearer"@,
            AuthVerifier::LegacyOidc => "legacy_oidc"@,
        }
    }

    /// The label under which the branch is counted.
    pub fn label(self) -> (r: &'static str)
        ensures
            r@ == self.spec_label(),
    {
        match self {
            AuthVerifier::TrinityIdToken => "trinity_id_token",
            AuthVerifier::LegacyBearer => "legacy_bearer",
            AuthVerifier::LegacyOidc => "legacy_oidc",
        }
    }
}

/// The count after one more. It starts over at zero after the largest number.
pub open spec fn next_count(count: u64) -> u64 {
    if count == u64::MAX {
        0
    } else {
        (count + 1) as u64
    }
}

/// The counters, one for each branch.
#[derive(Debug)]
pub struct AuthAdoptionCounter {
    trinity_id_token: u64,
    legacy_bearer: u64,
    legacy_oidc: u64,
}

impl AuthAdoptionCounter {
    /// The count of one branch.
    pub closed spec fn count(&self, verifier: AuthVerifier) -> u64 {
        match verifier {
            AuthVerifier::TrinityIdToken => self.trinity_id_token,
            AuthVerifier::LegacyBearer => self.legacy_bearer,
            AuthVerifier::LegacyOidc => self.legacy_oidc,
        }
    }

    /// All counts are zero.
    pub fn new() -> (r: AuthAdoptionCounter)
        ensures
            forall|v: AuthVerifier| #[trigger] r.count(v) == 0,
    {
        AuthAdoptionCounter { trinity_id_token: 0, legacy_bearer: 0, legacy_oidc: 0 }
    }

    /// Count one successful authentication on the given branch, and return the
    /// new count of that branch.
    pub fn record(&mut self, verifier: AuthVerifier) -> (total: u64)
        ensures
            total == next_count(old(self).count(verifier)),
            forall|v: AuthVerifier| #[trigger]
                final(self).count(v) == if v == verifier {
                    total
                } else {
                    old(self).count(v)
                },
    {
        let total: u64 = self.get(verifier).wrapping_add(1);
        match verifier {
            AuthVerifier::TrinityIdToken => {
                self.trinity_id_token = total;
            },
            AuthVerifier::LegacyBearer => {
                self.legacy_bearer = total;
            },
            AuthVerifier::LegacyOidc => {
                self.legacy_oidc = total;
            },
        }
        total
    }

    /// The count of one branch.
    pub fn get(&self, verifier: AuthVerifier) -> (r: u64)
        ensures
            r == self.count(verifier),
    {
        match verifier {
            AuthVerifier::TrinityIdToken => self.trinity_id_token,
            AuthVerifier::LegacyBearer => self.legacy_bearer,
            AuthVerifier::LegacyOidc => self.legacy_oidc,
        }
    }
}

impl Default for AuthAdoptionCounter {
    fn default() -> (r: AuthAdoptionCounter)
        ensures
            forall|v: AuthVerifier| #[trigger] r.count(v) == 0,
    {
        AuthAdoptionCounter::new()
    }
}

/// How often `verifier` stands in `events`.
pub open spec fn occurrences(events: Seq<AuthVerifier>, verifier: AuthVerifier) -> nat
    decreases events.len(),
{
    if events.len() == 0 {
        0
    } else {
        occurrences(events.drop_last(), verifier) + if events.last() == verifier {
            1nat
        } else {
            0nat
        }
    }
}

/// The count of a branch that stood at `start` after all of `events` have been
/// recorded.
pub open spec fn count_after(start: u64, events: Seq<AuthVerifier>, verifier: AuthVerifier) -> u64
    decreases events.len(),
{
    if events.len() == 0 {
        start
    } else {
        let before = count_after(start, events.drop_last(), verifier);
        if events.last() == verifier {
            next_count(before)
        } else {
            before
        }
    }
}

/// Each branch counts exactly the events that were recorded on it, in whatever
/// order they came, as long as they fit in the counter.
pub proof fn counts_are_occurrences(events: Seq<AuthVerifier>, verifier: AuthVerifier)
    requires
        occurrences(events, verifier) <= u64::MAX,
    ensures
        count_after(0, events, verifier) == occurrences(events, verifier),
    decreases events.len(),
{
    if events.len() > 0 {
        counts_are_occurrences(events.drop_last(), verifier);
    }
}

/// Different branches are counted under different labels.
pub proof fn labels_are_distinct(a: AuthVerifier, b: AuthVerifier)
    ensures
        a.spec_label() == b.spec_label() ==> a == b,
{
    reveal_strlit("trinity_id_token");
    reveal_strlit("legacy_bearer");
    reveal_strlit("legacy_oidc");
    assert("trinity_id_token"@.len() == 16);
    assert("legacy_bearer"@.len() == 13);
    assert("legacy_oidc"@.len() == 11);
}

/// A count goes up by one, and from the largest number back to zero.
pub proof fn counts_go_up_by_one(count: u64)
    ensures
        count < u64::MAX ==> next_count(count) == count + 1,
        count == u64::MAX ==> next_count(count) == 0,
{
}

/// The labels are those that the metric is read by.
pub proof fn branches_are_counted_under_their_labels()
    ensures
        AuthVerifier::TrinityIdToken.spec_label() == "trinity_id_token"@,
        AuthVerifier::LegacyBearer.spec_label() == "legacy_bearer"@,
        AuthVerifier::LegacyOidc.spec_label() == "legacy_oidc"@,
{
}

} // verus!
