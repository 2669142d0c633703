use reydenx::model::token::Token;

fn token(access: &str, expires: &str) -> Token {
    Token { access_token: String::from(access), expires_in: String::from(expires) }
}

#[test]
fn empty_access_value_is_invalid() {
    let t = token("", "2099-01-01T00:00:00+00:00");
    assert!(!t.is_valid());
}

#[test]
fn empty_expiry_is_invalid() {
    let t = token("abc", "");
    assert!(!t.is_valid());
}

#[test]
fn both_empty_is_invalid() {
    let t = token("", "");
    assert!(!t.is_valid());
    assert!(t.is_expired());
}

#[test]
fn future_expiry_is_valid() {
    let t = token("abc", "2099-01-01T00:00:00+00:00");
    assert!(t.is_valid());
    assert!(!t.is_expired());
}

#[test]
fn past_expiry_is_invalid() {
    let t = token("abc", "2000-01-01T00:00:00+00:00");
    assert!(!t.is_valid());
    assert!(t.is_expired());
}

#[test]
fn unparsable_expiry_fails_closed() {
    let t = token("abc", "not-a-timestamp");
    assert!(!t.is_valid());
    assert!(t.is_expired());
}

#[test]
fn validity_window_boundaries() {
    // 2026-01-01T00:00:00+00:00 is 1767225600 seconds since the epoch.
    let exp: i64 = 1767225600;
    let t = token("abc", "2026-01-01T00:00:00+00:00");
    assert!(t.is_valid_at(exp - 1));
    assert!(!t.is_expired_at(exp - 1));
    assert!(!t.is_valid_at(exp));
    assert!(t.is_expired_at(exp));
    assert!(!t.is_valid_at(exp + 1));
    assert!(t.is_expired_at(exp + 1));
}

#[test]
fn offset_expiry_parses() {
    // The same instant written with a non-zero offset.
    let t = token("abc", "2026-01-01T03:00:00+03:00");
    assert!(!t.is_valid_at(1767225600));
    assert!(t.is_valid_at(1767225599));
}
