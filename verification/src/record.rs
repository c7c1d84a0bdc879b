//! The credential record and the rule that decides whether it may still be used.

use vstd::prelude::*;

verus! {

/// Seconds by which a record is taken out of use before the provider lets it expire.
pub const SAFETY_MARGIN: u64 = 60;

/// Validity in seconds that is assumed where the provider names none.
pub const DEFAULT_EXPIRES_IN: u64 = 3600;

/// The one persistent entity: what the provider issued, and when it was received.
#[derive(Debug, Clone, PartialEq, Eq)]
pub struct CredentialRecord {
    pub access_token: String,
    pub refresh_token: String,
    pub expires_in: u64,
    pub issued_at: u64,
}

/// A credential record as plain mathematical values.
pub struct RecordView {
    pub access_token: Seq<char>,
    pub refresh_token: Seq<char>,
    pub expires_in: nat,
    pub issued_at: nat,
}

impl View for CredentialRecord {
    type V = RecordView;

    open spec fn view(&self) -> RecordView {
        RecordView {
            access_token: self.access_token@,
            refresh_token: self.refresh_token@,
            expires_in: self.expires_in as nat,
            issued_at: self.issued_at as nat,
        }
    }
}

/// A token received at `issued_at` and valid for `expires_in` seconds is fresh at
/// `now` when its age has not passed the validity less the safety margin.
pub open spec fn fresh(issued_at: int, expires_in: int, now: int) -> bool {
    now - issued_at <= expires_in - 60
}

impl RecordView {
    pub open spec fn is_fresh(self, now: int) -> bool {
        fresh(self.issued_at as int, self.expires_in as int, now)
    }
}

/// Decides freshness on machine integers, exactly as `fresh` does on the integers.
pub fn is_fresh_at(issued_at: u64, expires_in: u64, now: u64) -> (r: bool)
    ensures
        r == fresh(issued_at as int, expires_in as int, now as int),
{
    now as u128 + SAFETY_MARGIN as u128 <= expires_in as u128 + issued_at as u128
}

impl CredentialRecord {
    /// Puts a record together from its four fields.
    pub fn new(access_token: String, refresh_token: String, expires_in: u64, issued_at: u64) -> (r:
        CredentialRecord)
        ensures
            r.access_token == access_token,
            r.refresh_token == refresh_token,
            r.expires_in == expires_in,
            r.issued_at == issued_at,
    {
        CredentialRecord { access_token, refresh_token, expires_in, issued_at }
    }

    /// Whether the access token may still be used at `now`.
    pub fn is_fresh(&self, now: u64) -> (r: bool)
        ensures
            r == self@.is_fresh(now as int),
    {
        is_fresh_at(self.issued_at, self.expires_in, now)
    }

    /// A copy with the same four fields.
    pub fn duplicate(&self) -> (r: CredentialRecord)
        ensures
            r@ == self@,
    {
        CredentialRecord {
            access_token: self.access_token.clone(),
            refresh_token: self.refresh_token.clone(),
            expires_in: self.expires_in,
            issued_at: self.issued_at,
        }
    }

    /// Field-for-field equality.
    pub fn same_as(&self, other: &CredentialRecord) -> (r: bool)
        ensures
            r == (self@ == other@),
    {
        let same = self.access_token == other.access_token && self.refresh_token
            == other.refresh_token && self.expires_in == other.expires_in && self.issued_at
            == other.issued_at;
        proof {
            if same {
                assert(self@.access_token =~= other@.access_token);
            }
        }
        same
    }
}

/// A record is fresh at the very second at which its age reaches the validity
/// less the safety margin, and no longer one second later.
pub proof fn lemma_fresh_boundary(issued_at: int, expires_in: int)
    ensures
        fresh(issued_at, expires_in, issued_at + expires_in - 60),
        !fresh(issued_at, expires_in, issued_at + expires_in - 60 + 1),
{
}

/// Freshness only ever ends: a record that is stale stays stale at every later
/// time, and one that is fresh was fresh at every earlier time.
pub proof fn lemma_fresh_is_downward_closed(
    issued_at: int,
    expires_in: int,
    earlier: int,
    later: int,
)
    requires
        earlier <= later,
    ensures
        fresh(issued_at, expires_in, later) ==> fresh(issued_at, expires_in, earlier),
        !fresh(issued_at, expires_in, earlier) ==> !fresh(issued_at, expires_in, later),
{
}

/// A record whose validity is shorter than the safety margin is stale from the
/// second it was issued.
pub proof fn lemma_short_lived_is_never_fresh(issued_at: int, expires_in: int, now: int)
    requires
        expires_in < 60,
        issued_at <= now,
    ensures
        !fresh(issued_at, expires_in, now),
{
}

} // verus!
