//! Authentication interface of the application: JWT claims, the
//! authenticated principal, and token creation/validation. The proxy core
//! consumes authentication only as "a principal id, or a rejection"; the
//! cryptography itself is the `jsonwebtoken` crate's.

use vstd::prelude::*;

verus! {

/// The claims encoded into a token: the subject (user id) and the expiry
/// timestamp in unix seconds.
#[derive(Debug, Clone)]
pub struct Claims {
    pub sub: String,
    pub exp: usize,
}

/// The authenticated principal attached to a request.
#[derive(Debug, Clone)]
pub struct AuthenticatedUser {
    pub id: String,
}

/// Why a request carries no authenticated principal.
#[derive(Debug, Clone, Copy)]
pub enum AuthError {
    MissingCredentials,
}

impl AuthError {
    /// Human-readable description of the rejection.
    pub fn message(&self) -> (r: String)
        ensures
            r@ == "Missing credentials"@,
    {
        String::from_str("Missing credentials")
    }
}

/// Configuration for token creation and validation. The expiration is
/// clamped to a thousand years' worth of hours on construction, so that
/// expiry arithmetic stays exact.
pub struct TokenConfig {
    secret: String,
    expiration_hours: i64,
}

/// Largest accepted expiration, in hours.
pub const MAX_EXPIRATION_HOURS: i64 = 8_760_000;

impl TokenConfig {
    /// The signing secret.
    pub closed spec fn secret(&self) -> Seq<char> {
        self.secret@
    }

    /// The token lifetime in hours (negative values produce tokens that are
    /// already expired).
    pub closed spec fn hours(&self) -> int {
        self.expiration_hours as int
    }

    /// Builds a configuration, clamping the lifetime into
    /// `[-MAX_EXPIRATION_HOURS, MAX_EXPIRATION_HOURS]`.
    pub fn new(secret: String, expiration_hours: i64) -> (r: Self)
        ensures
            r.secret() == secret@,
            r.hours() == (if expiration_hours > MAX_EXPIRATION_HOURS {
                MAX_EXPIRATION_HOURS as int
            } else if expiration_hours < -MAX_EXPIRATION_HOURS {
                -MAX_EXPIRATION_HOURS as int
            } else {
                expiration_hours as int
            }),
            -MAX_EXPIRATION_HOURS <= r.hours() <= MAX_EXPIRATION_HOURS,
    {
        let h = if expiration_hours > MAX_EXPIRATION_HOURS {
            MAX_EXPIRATION_HOURS
        } else if expiration_hours < -MAX_EXPIRATION_HOURS {
            -MAX_EXPIRATION_HOURS
        } else {
            expiration_hours
        };
        TokenConfig { secret, expiration_hours: h }
    }
}

/// The expiry timestamp of a token issued at `now` (unix seconds) with the
/// given lifetime, saturating at the ends of the 64-bit range.
pub open spec fn expiry_of(now: int, hours: int) -> int {
    let total = now + hours * 3600;
    if total > i64::MAX {
        i64::MAX as int
    } else if total < i64::MIN {
        i64::MIN as int
    } else {
        total
    }
}

/// The expiry claim value of a token issued at `now`: the saturating expiry
/// timestamp, clamped into what a `usize` claim can carry.
pub open spec fn exp_claim_of(now: int, hours: int) -> int {
    let e = expiry_of(now, hours);
    if e < 0 {
        0
    } else if e > usize::MAX {
        usize::MAX as int
    } else {
        e
    }
}

/// The claims of a token issued at `now`: the subject as given, the expiry
/// `hours` hours later (clamped to zero when in the past of the epoch).
pub fn claims_for(user_id: &str, now: i64, config: &TokenConfig) -> (c: Claims)
    requires
        -MAX_EXPIRATION_HOURS <= config.hours() <= MAX_EXPIRATION_HOURS,
    ensures
        c.sub@ == user_id@,
        c.exp == exp_claim_of(now as int, config.hours()),
{
    let seconds: i64 = config.expiration_hours * 3600;
    let total: i64 = match now.checked_add(seconds) {
        Some(t) => t,
        None => {
            if now > 0 {
                i64::MAX
            } else {
                i64::MIN
            }
        },
    };
    let exp: usize = if total < 0 {
        0
    } else if total as u64 > usize::MAX as u64 {
        usize::MAX
    } else {
        total as usize
    };
    Claims { sub: String::from_str(user_id), exp }
}

/// What jsonwebtoken's HS256 encoding produces for given claims and secret.
/// The token text takes pages to state; it is a function of the arguments
/// alone.
pub uninterp spec fn jwt_of(sub: Seq<char>, exp: int, secret: Seq<char>) -> Seq<char>;

/// Relies on jsonwebtoken's `encode` with the default (HS256) header: the
/// token is a deterministic function of the claims and the secret.
#[verifier::external_body]
fn encode_hs256(sub: &String, exp: usize, secret: &String) -> (r: Result<
    String,
    jsonwebtoken::errors::Error,
>)
    ensures
        r matches Ok(t) ==> t@ == jwt_of(sub@, exp as int, secret@),
{
    let mut claims = serde_json::Map::new();
    claims.insert("sub".to_string(), serde_json::Value::String(sub.clone()));
    claims.insert("exp".to_string(), serde_json::Value::from(exp as u64));
    jsonwebtoken::encode(
        &jsonwebtoken::Header::default(),
        &serde_json::Value::Object(claims),
        &jsonwebtoken::EncodingKey::from_secret(secret.as_bytes()),
    )
}

/// Relies on jsonwebtoken's `decode` with default validation: the signature
/// and the `exp` claim are checked. The outcome also depends on the clock,
/// so nothing is assumed of it; the claims come back as plain values.
#[verifier::external_body]
fn decode_hs256(token: &str, secret: &String) -> (r: Result<
    (String, usize),
    jsonwebtoken::errors::Error,
>)
{
    let data = jsonwebtoken::decode::<serde_json::Value>(
        token,
        &jsonwebtoken::DecodingKey::from_secret(secret.as_bytes()),
        &jsonwebtoken::Validation::default(),
    )?;
    let sub = data.claims.get("sub").and_then(|v| v.as_str()).unwrap_or("").to_string();
    let exp = data.claims.get("exp").and_then(|v| v.as_u64()).unwrap_or(0) as usize;
    Ok((sub, exp))
}

/// The error type of the `jsonwebtoken` crate, carried through unchanged so
/// that callers can inspect its kind.
#[verifier::external_type_specification]
#[verifier::external_body]
pub struct ExJwtError(jsonwebtoken::errors::Error);

/// Generates a JWT for a given user id: HS256 over the claims that
/// `claims_for` pins down, issued at the current clock reading.
pub fn create_jwt(user_id: &str, config: &TokenConfig) -> (r: Result<
    String,
    jsonwebtoken::errors::Error,
>)
    requires
        -MAX_EXPIRATION_HOURS <= config.hours() <= MAX_EXPIRATION_HOURS,
    ensures
        r matches Ok(t) ==> exists|now: int|
            t@ == jwt_of(user_id@, exp_claim_of(now, config.hours()), config.secret()),
{
    let now_secs = now_unix_seconds();
    let now: i64 = if now_secs > i64::MAX as u64 {
        i64::MAX
    } else {
        now_secs as i64
    };
    let claims = claims_for(user_id, now, config);
    let r = encode_hs256(&claims.sub, claims.exp, &config.secret);
    proof {
        if r is Ok {
            assert(r->Ok_0@ == jwt_of(
                user_id@,
                exp_claim_of(now as int, config.hours()),
                config.secret(),
            ));
        }
    }
    r
}

/// Validates a JWT and returns its claims. Rejection (bad signature, bad
/// shape, expired) surfaces the crate's own error so that callers can tell
/// the reasons apart; the expiry check depends on the clock, so no more is
/// promised here.
pub fn validate_jwt(token: &str, config: &TokenConfig) -> (r: Result<
    Claims,
    jsonwebtoken::errors::Error,
>) {
    match decode_hs256(token, &config.secret) {
        Ok((sub, exp)) => Ok(Claims { sub, exp }),
        Err(e) => Err(e),
    }
}

/// Relies on std's `SystemTime::now`: the current unix time in seconds. A
/// clock before the epoch reads as zero; nothing else is assumed of the
/// value.
#[verifier::external_body]
fn now_unix_seconds() -> (r: u64) {
    std::time::SystemTime::now()
        .duration_since(std::time::UNIX_EPOCH)
        .map(|d| d.as_secs())
        .unwrap_or(0)
}

/// The authentication middleware's decision, given the validation outcome:
/// a valid token's subject becomes the request's authenticated principal, an
/// invalid one rejects the request.
pub fn auth_decision(validated: Result<Claims, String>) -> (r: Result<AuthenticatedUser, String>)
    ensures
        match validated {
            Ok(c) => r matches Ok(u) && u.id@ == c.sub@,
            Err(e) => r matches Err(x) && x@ == e@,
        },
{
    match validated {
        Ok(c) => Ok(AuthenticatedUser { id: c.sub }),
        Err(e) => Err(e),
    }
}

} // verus!
