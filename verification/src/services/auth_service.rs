//! Authentication of requests: the bearer token of the `Authorization`
//! header, the outcome of decoding it, and the user id it names.

use vstd::prelude::*;
use jwks_client::jwt::Jwt;
use jwks_client::keyset::KeyStore;
use crate::clock::{ClockReading, clock_now};
use crate::errors::ApiError;
use crate::models::user::User;
use crate::text::{starts_with, trim_of, trimmed};

verus! {

/// Declares `jwks_client::jwt::Jwt`, a token split into its parts.
#[verifier::external_type_specification]
#[verifier::external_body]
pub struct ExJwt(Jwt);

/// The JSON text of the payload of `token`, as `KeyStore::decode` reads
/// it (three `.`-separated segments, the first two base64url text of
/// JSON values) and `serde_json` writes it back; none where it cannot be
/// read.
pub uninterp spec fn jwt_payload_of(token: Seq<char>) -> Option<Seq<char>>;

/// The `exp` claim of `token` as `Payload::exp` reads it: a number,
/// turned into a whole `u64` (saturating); none where the token has none.
pub uninterp spec fn jwt_exp_of(token: Seq<char>) -> Option<u64>;

/// Calls `KeyStore::new().decode(token)`, which splits a token into its
/// header, payload and signature without checking the signature; writes
/// the payload's JSON value as text, and reads its `exp` claim with
/// `Payload::exp`. Claimed: the outcome, the text and the claim are a
/// function of the token alone.
#[verifier::external_body]
fn decode_unverified(token: &str) -> (res: Option<(String, Option<u64>, Jwt)>)
    ensures
        match res {
            Some((payload, exp, _)) => jwt_payload_of(token@) == Some(payload@) && jwt_exp_of(
                token@,
            ) == exp,
            None => jwt_payload_of(token@) is None,
        },
{
    match KeyStore::new().decode(token) {
        Ok(jwt) => match jwt.payload().into::<serde_json::Value>() {
            Ok(value) => Some((value.to_string(), jwt.payload().exp(), jwt)),
            Err(_) => None,
        },
        Err(_) => None,
    }
}

/// Whether a token with expiry `exp` (seconds since the Unix epoch) has
/// expired at the time `secs` seconds and `nanos` nanoseconds after the
/// epoch: the time is later than the expiry; none where there is no
/// expiry.
pub open spec fn expired_at(exp: Option<u64>, secs: u64, nanos: u32) -> Option<bool> {
    match exp {
        Some(e) => Some(secs > e || (secs == e && nanos > 0)),
        None => None,
    }
}

/// A token with an expiry has expired at a time exactly when that time,
/// counted in nanoseconds since the Unix epoch, lies past the expiry; at
/// the expiry itself or before it, it has not.
pub proof fn lemma_expired_exactly_past_expiry(exp: u64, secs: u64, nanos: u32)
    requires
        nanos < 1_000_000_000,
    ensures
        expired_at(Some(exp), secs, nanos) == Some(
            secs as int * 1_000_000_000 + nanos as int > exp as int * 1_000_000_000,
        ),
{
}

/// The expiry can be placed in time: `Jwt::expired` adds it to the Unix
/// epoch, which panics past what a Unix `SystemTime` holds (`i64::MAX`
/// seconds).
pub open spec fn exp_placeable(exp: Option<u64>) -> bool {
    exp matches Some(e) ==> e <= i64::MAX
}

/// A token split into its parts, its payload as JSON text, whether it
/// had expired when it was read (none where it has no expiry), and the
/// clock reading at which that was judged (none where the time was
/// given).
pub struct DecodedToken {
    pub jwt: Jwt,
    pub payload: String,
    pub expired: Option<bool>,
    pub read_at: Option<ClockReading>,
}

/// Authentication of requests.
pub struct AuthService;

/// The claims of a token that the service reads.
pub struct AuthData {
    pub name: Option<String>,
    pub email: Option<String>,
    pub verifier_id: Option<String>,
}

impl AuthService {
    /// Splits a bearer token into its parts, without checking its
    /// signature, and judges its expiry at the given time (seconds and
    /// nanoseconds since the Unix epoch). The claims are read from its
    /// payload by the caller and judged by `decoded`.
    pub fn decode_jwt_at(token: &str, now_secs: u64, now_nanos: u32) -> (res: DecodedToken)
        requires
            jwt_payload_of(token@) is Some,
            exp_placeable(jwt_exp_of(token@)),
        ensures
            jwt_payload_of(token@) == Some(res.payload@),
            res.expired == expired_at(jwt_exp_of(token@), now_secs, now_nanos),
            res.read_at is None,
    {
        let (payload, exp, jwt) = decode_unverified(token).unwrap();
        let expired = match exp {
            Some(e) => Some(now_secs > e || (now_secs == e && now_nanos > 0)),
            None => None,
        };
        DecodedToken { jwt, payload, expired, read_at: None }
    }

    /// `decode_jwt_at` at the time the clock reads now: the expiry is
    /// judged at the reading that the clock gave, which the result
    /// carries; whether the token has expired is known exactly where it
    /// has an expiry.
    pub fn decode_jwt(token: &str) -> (res: DecodedToken)
        requires
            jwt_payload_of(token@) is Some,
            exp_placeable(jwt_exp_of(token@)),
        ensures
            jwt_payload_of(token@) == Some(res.payload@),
            exists|secs: u64, nanos: u32| res.expired == expired_at(jwt_exp_of(token@), secs, nanos),
            res.expired is Some == jwt_exp_of(token@) is Some,
            res.read_at matches Some(r) && res.expired == expired_at(
                jwt_exp_of(token@),
                r.seconds(),
                r.nanoseconds(),
            ),
    {
        let now = clock_now();
        let mut decoded = Self::decode_jwt_at(token, now.secs(), now.nanos());
        decoded.read_at = Some(now);
        decoded
    }

    /// `decode_jwt` where the token can be read and its expiry placed in
    /// time; none where not (there `decode_jwt` would panic).
    pub fn checked_decode_jwt(token: &str) -> (res: Option<DecodedToken>)
        ensures
            res is Some == (jwt_payload_of(token@) is Some && exp_placeable(jwt_exp_of(token@))),
            res matches Some(d) ==> jwt_payload_of(token@) == Some(d.payload@) && d.expired is Some
                == jwt_exp_of(token@) is Some && exists|secs: u64, nanos: u32| d.expired == expired_at(
                jwt_exp_of(token@),
                secs,
                nanos,
            ),
            res matches Some(d) ==> (d.read_at matches Some(r) && d.expired == expired_at(
                jwt_exp_of(token@),
                r.seconds(),
                r.nanoseconds(),
            )),
    {
        match decode_unverified(token) {
            Some((_, exp, _)) => {
                let placeable = match exp {
                    Some(e) => e <= 9223372036854775807u64,
                    None => true,
                };
                if placeable {
                    Some(Self::decode_jwt(token))
                } else {
                    None
                }
            },
            None => None,
        }
    }

    /// The token a request carries: refused where it has no
    /// `Authorization` header or the header holds no bearer token.
    pub fn authorization_token(header: Option<&str>) -> (res: Result<String, ApiError>)
        ensures
            match header {
                None => res matches Err(ApiError::Unauthorized),
                Some(v) => match res {
                    Ok(t) => v@.len() >= 7 && v@.subrange(0, 7) == "Bearer "@ && t@ == trim_of(v@.skip(7)),
                    Err(ApiError::Unauthorized) => !(v@.len() >= 7 && v@.subrange(0, 7) == "Bearer "@),
                },
            },
    {
        match header {
            None => Err(ApiError::Unauthorized),
            Some(v) => match Self::bearer_token(v) {
                Some(t) => Ok(t),
                None => Err(ApiError::Unauthorized),
            },
        }
    }

    /// The user a request is made for: refused where the identity
    /// provider does not know the token's user; else the stored user,
    /// or, for a user not stored yet, the identity provider's.
    pub fn request_user(identity: Option<User>, stored: Option<User>) -> (res: Result<User, ApiError>)
        ensures
            match identity {
                None => res matches Err(ApiError::Unauthorized),
                Some(i) => match stored {
                    Some(u) => res == Ok::<User, ApiError>(u),
                    None => res == Ok::<User, ApiError>(i),
                },
            },
    {
        match identity {
            None => Err(ApiError::Unauthorized),
            Some(i) => match stored {
                Some(u) => Ok(u),
                None => Ok(i),
            },
        }
    }

    /// The token of an `Authorization` header value: what follows
    /// `Bearer `, trimmed; none where the value does not start so.
    pub fn bearer_token(value: &str) -> (res: Option<String>)
        ensures
            match res {
                Some(t) => value@.len() >= 7 && value@.subrange(0, 7) == "Bearer "@ && t@ == trim_of(
                    value@.skip(7),
                ),
                None => !(value@.len() >= 7 && value@.subrange(0, 7) == "Bearer "@),
            },
    {
        proof {
            reveal_strlit("Bearer ");
        }
        if starts_with(value, "Bearer ") {
            let n = value.unicode_len();
            let rest = value.substring_char(7, n);
            proof {
                assert(rest@ =~= value@.skip(7));
            }
            Some(trimmed(rest))
        } else {
            None
        }
    }

    /// The outcome of decoding a token: refused where it has expired (an
    /// unknown expiry counts as not expired), or where its claims could
    /// not be read.
    pub fn decoded(expired: Option<bool>, claims: Option<AuthData>) -> (res: Result<AuthData, String>)
        ensures
            match res {
                Ok(d) => expired != Some(true) && claims == Some(d),
                Err(m) => (expired == Some(true) && m@ == "Sorry, token expired"@) || (expired
                    != Some(true) && claims is None && m@ == "Failed to decode token"@),
            },
    {
        let is_expired = match expired {
            Some(b) => b,
            None => false,
        };
        if is_expired {
            Err(String::from_str("Sorry, token expired"))
        } else {
            match claims {
                Some(data) => Ok(data),
                None => Err(String::from_str("Failed to decode token")),
            }
        }
    }

    /// The user id a request is made for: refused where the token could
    /// not be decoded or names no user.
    pub fn verifier_id_of(decoded: Result<AuthData, String>) -> (res: Result<String, ApiError>)
        ensures
            match res {
                Ok(id) => decoded matches Ok(d) && d.verifier_id == Some(id),
                Err(ApiError::Unauthorized) => decoded is Err || (decoded matches Ok(d)
                    && d.verifier_id is None),
            },
    {
        match decoded {
            Ok(d) => match d.verifier_id {
                Some(id) => Ok(id),
                None => Err(ApiError::Unauthorized),
            },
            Err(_) => Err(ApiError::Unauthorized),
        }
    }
}

} // verus!
