use vstd::prelude::*;

verus! {

/// How long an issued token stays valid, in seconds.
pub const TOKEN_VALIDITY_SECS: i64 = 86400;

/// The claims carried by an access token: subject (the user's storage key),
/// expiry and issue instants (whole seconds since the Unix epoch), and the
/// subject's role text.
#[derive(Debug, Clone)]
pub struct JwtClaims {
    pub sub: i64,
    pub exp: i64,
    pub iat: i64,
    pub role: String,
}

impl JwtClaims {
    pub fn new(sub: i64, exp: i64, iat: i64, role: String) -> (r: JwtClaims)
        ensures
            r == (JwtClaims { sub, exp, iat, role }),
    {
        JwtClaims { sub, exp, iat, role }
    }

    /// The claims of a token issued at instant `now` for this user and role:
    /// valid from now for exactly the token validity span.
    pub fn issue(user_id: i64, role: &str, now: i64) -> (r: JwtClaims)
        requires
            now <= i64::MAX - TOKEN_VALIDITY_SECS,
        ensures
            r.sub == user_id,
            r.iat == now,
            r.exp == now + TOKEN_VALIDITY_SECS,
            r.role@ == role@,
    {
        JwtClaims { sub: user_id, exp: now + TOKEN_VALIDITY_SECS, iat: now, role: String::from_str(role) }
    }

    /// Whether the token is still valid at instant `now`.
    pub fn is_valid_at(&self, now: i64) -> (r: bool)
        ensures
            r == (now < self.exp),
    {
        now < self.exp
    }
}

/// The verified subject key taken out of a mandatory bearer token.
#[derive(Debug, Clone, Copy, Default)]
pub struct JwtValidationExtractor(pub i64);

/// The verified subject key of an optional bearer token: nothing when no
/// token was offered at all.
#[derive(Debug, Clone, Copy, Default)]
pub struct OptionalJwtValidationExtractor(pub Option<i64>);

} // verus!
