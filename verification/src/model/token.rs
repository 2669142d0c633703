//! The bearer credential and its freshness rule.

use vstd::prelude::*;

verus! {

/// What an RFC 3339 timestamp string denotes: the instant as seconds since
/// the Unix epoch, or nothing when the string is not a valid RFC 3339
/// date-and-time.
pub uninterp spec fn rfc3339_timestamp_of(s: Seq<char>) -> Option<int>;

/// Relies on chrono's `DateTime::parse_from_rfc3339` and
/// `DateTime::timestamp`: the parse accepts exactly the valid RFC 3339
/// date-and-time strings, and its result depends on the characters alone.
#[verifier::external_body]
pub(crate) fn parse_rfc3339_timestamp(s: &str) -> (r: Option<i64>)
    ensures
        r is Some <==> rfc3339_timestamp_of(s@) is Some,
        r is Some ==> rfc3339_timestamp_of(s@) == Some(r->0 as int),
{
    chrono::DateTime::parse_from_rfc3339(s).ok().map(|d| d.timestamp())
}

/// Relies on chrono's `Utc::now`: returns the current time as seconds since
/// the Unix epoch; nothing is assumed about its value.
#[verifier::external_body]
pub(crate) fn now_timestamp() -> i64 {
    chrono::Utc::now().timestamp()
}

/// What the token endpoint's JSON body holds: the `access_token` and
/// `expires_in` string fields, or nothing when the body is not a JSON
/// object carrying both as strings.
pub uninterp spec fn token_fields_of(s: Seq<char>) -> Option<(Seq<char>, Seq<char>)>;

/// Relies on serde_json's `from_str::<Value>`, `Value::get` and
/// `Value::as_str`: the two token fields depend on the characters alone.
#[verifier::external_body]
pub(crate) fn parse_token_fields(body: &str) -> (r: Option<(String, String)>)
    ensures
        r is Some <==> token_fields_of(body@) is Some,
        r matches Some(p) ==> token_fields_of(body@) == Some((p.0@, p.1@)),
{
    let v: serde_json::Value = match serde_json::from_str(body) {
        Ok(v) => v,
        Err(_) => return None,
    };
    let access = v.get("access_token")?.as_str()?.to_string();
    let expires = v.get("expires_in")?.as_str()?.to_string();
    Some((access, expires))
}

/// A bearer credential: the access value and the expiry instant, both as the
/// vendor sent them.
#[derive(Debug, Clone)]
pub struct Token {
    pub access_token: String,
    pub expires_in: String,
}

impl Token {
    /// The token counts as expired at `now` when its expiry string does not
    /// denote an instant strictly after `now`. An empty or unparsable expiry
    /// fails closed: it is treated as already expired.
    pub open spec fn spec_expired_at(&self, now: int) -> bool {
        match rfc3339_timestamp_of(self.expires_in@) {
            Some(t) => now >= t,
            None => true,
        }
    }

    /// A token is valid at `now` when both fields are non-empty and the
    /// expiry instant is still in the future.
    pub open spec fn spec_valid_at(&self, now: int) -> bool {
        self.access_token@.len() > 0 && self.expires_in@.len() > 0 && !self.spec_expired_at(now)
    }

    /// Whether the token is expired at the given instant.
    pub fn is_expired_at(&self, now: i64) -> (r: bool)
        ensures
            r == self.spec_expired_at(now as int),
    {
        match parse_rfc3339_timestamp(self.expires_in.as_str()) {
            Some(t) => now >= t,
            None => true,
        }
    }

    /// Whether the token is valid at the given instant.
    pub fn is_valid_at(&self, now: i64) -> (r: bool)
        ensures
            r == self.spec_valid_at(now as int),
    {
        if self.access_token.as_str().is_empty() || self.expires_in.as_str().is_empty() {
            return false;
        }
        !self.is_expired_at(now)
    }

    /// Whether the token is expired at the current time.
    pub fn is_expired(&self) -> (r: bool)
        ensures
            exists|now: int| r == self.spec_expired_at(now),
            rfc3339_timestamp_of(self.expires_in@) is None ==> r,
    {
        let now = now_timestamp();
        self.is_expired_at(now)
    }

    /// Whether the token is valid at the current time.
    pub fn is_valid(&self) -> (r: bool)
        ensures
            exists|now: int| r == self.spec_valid_at(now),
            self.access_token@.len() == 0 ==> !r,
            self.expires_in@.len() == 0 ==> !r,
            rfc3339_timestamp_of(self.expires_in@) is None ==> !r,
    {
        let now = now_timestamp();
        self.is_valid_at(now)
    }
}

/// A token with an empty access value or an empty expiry is invalid at every
/// instant.
pub proof fn lemma_empty_token_invalid(t: Token, now: int)
    requires
        t.access_token@.len() == 0 || t.expires_in@.len() == 0,
    ensures
        !t.spec_valid_at(now),
{
}

/// A token whose fields are non-empty and whose expiry denotes an instant is
/// valid exactly while that instant is strictly in the future: at or after
/// it, the token is invalid.
pub proof fn lemma_token_validity_window(t: Token, now: int, exp: int)
    requires
        t.access_token@.len() > 0,
        t.expires_in@.len() > 0,
        rfc3339_timestamp_of(t.expires_in@) == Some(exp),
    ensures
        t.spec_valid_at(now) <==> now < exp,
{
}

} // verus!
