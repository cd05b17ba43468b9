//! Module that represents the crypto part in this crate
use vstd::prelude::*;

use crate::models::user::JwtUser;
use crate::text::{decimal_i32, signed_text};

verus! {

/// The secret key for `JWT`s
#[derive(Clone, Debug)]
pub struct SecretKey(pub String);

impl SecretKey {
    /// The text of the key, as its `Display` writes it.
    pub fn to_string(&self) -> (r: String)
        ensures
            r@ == self.0@,
    {
        self.0.clone()
    }
}

/// Data that is encoded into the `JWT`
#[derive(Debug)]
pub struct Claims {
    pub sub: String,
    pub exp: usize,
    pub user: JwtUser,
}

/// How long a token stays valid, in seconds: one hour.
pub open spec fn token_lifetime() -> int {
    3600
}

/// An upper bound on the UNIX timestamps of `chrono`'s dates: the last second of the
/// 2^31st day after 1970. The dates themselves end well before it, in the year 262142.
pub open spec fn max_chrono_timestamp() -> int {
    185_542_587_187_199
}

/// `chrono::Utc::now().timestamp()`: the current UNIX time in seconds. In the crate's
/// source (0.4.45) `now` reads the system clock, panics before 1970 and builds the date
/// with `DateTime::from_timestamp(secs, _).unwrap()`, which only succeeds while the days
/// fit in an `i32`; so the timestamp is never negative nor above that upper bound. Nothing
/// else is claimed: the value depends on the clock.
#[verifier::external_body]
fn current_timestamp() -> (r: i64)
    ensures
        0 <= r <= max_chrono_timestamp(),
{
    chrono::Utc::now().timestamp()
}

/// The claims of a token for `user` issued at the UNIX time `now`.
pub open spec fn claims_at(user: JwtUser, now: int, c: Claims) -> bool {
    &&& c.sub@ == signed_text(user.id as int)
    &&& c.exp == (now + token_lifetime()) as usize
    &&& c.user == user
}

/// The claims of a token for `user` issued at some moment that `chrono` can hold.
pub open spec fn issued_for(user: JwtUser, c: Claims) -> bool {
    exists|now: int| 0 <= now <= max_chrono_timestamp() && #[trigger] claims_at(user, now, c)
}

impl Claims {
    /// The claims of a token for `user` issued at the UNIX time `now`: the subject is
    /// the user's id in decimal, and the token expires one hour later.
    pub fn issued_at(user: &JwtUser, now: i64) -> (c: Claims)
        requires
            now <= i64::MAX - 3600,
        ensures
            claims_at(*user, now as int, c),
    {
        let expiration = now + 3600;
        Claims { sub: decimal_i32(user.id), exp: expiration as usize, user: user.duplicate() }
    }

    /// The claims of a token for `user` issued now.
    pub fn new(user: &JwtUser) -> (c: Claims)
        ensures
            issued_for(*user, c),
    {
        let now = current_timestamp();
        let c = Claims::issued_at(user, now);
        assert(claims_at(*user, now as int, c));
        c
    }
}

} // verus!
