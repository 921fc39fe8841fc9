//! The token codec: signature verification, the reading of claims, and the
//! expiry check that follows it.
//!
//! A token is three parts joined by dots; the last part signs the two
//! before it. The codec splits the token at its last dot, asks for the
//! header's algorithm and for the signature to be checked, and reads the
//! payload only of a token that passed both.
//!
//! Verification and freshness are kept apart on purpose. Whether a token is
//! one that was signed with the shared secret does not depend on the time;
//! whether it is still within its validity window is decided afterwards, by
//! comparing `exp` with the clock.

use crate::claims::{Claims, ClaimsView};
use crate::error::AuthError;
use crate::payload::{
    claims_from_payload, claims_of_payload, member_views, Field, Item, Member, MemberView, Payload,
};
use jsonwebtoken::crypto::verify;
use jsonwebtoken::{dangerous_insecure_decode, decode_header, Algorithm, DecodingKey};
use serde_json::Value;
use std::time::{Duration, SystemTime, SystemTimeError, UNIX_EPOCH};
use vstd::prelude::*;
use vstd::std_specs::iter::IteratorSpec;
use vstd::string::StrSliceExecFns;

verus! {

/// The error of the `jsonwebtoken` crate. Nothing is read from it: every
/// failure to decode is reported as [`AuthError::InvalidToken`].
#[verifier::external_type_specification]
#[verifier::external_body]
pub struct ExDecodeError(jsonwebtoken::errors::Error);

/// A reading of the system clock.
#[verifier::external_type_specification]
#[verifier::external_body]
pub struct ExSystemTime(SystemTime);

/// The error of a clock that reads earlier than the instant it is measured
/// from.
#[verifier::external_type_specification]
#[verifier::external_body]
pub struct ExSystemTimeError(SystemTimeError);

/// The signing algorithms that a token's header can name.
#[derive(Clone, Copy, Debug, PartialEq, Eq, Structural)]
pub enum SigningAlgorithm {
    HS256,
    HS384,
    HS512,
    ES256,
    ES384,
    RS256,
    RS384,
    RS512,
    PS256,
    PS384,
    PS512,
}

/// The algorithm that the header of `token` names, and `None` where the
/// token has no header that can be read: what `jsonwebtoken::decode_header`
/// returns for the two.
pub uninterp spec fn header_algorithm(token: Seq<char>) -> Option<SigningAlgorithm>;

/// Whether `signature` is the HMAC-SHA-256 signature of `message` under
/// `secret`, in the encoding that tokens use: what
/// `jsonwebtoken::crypto::verify` returns, with `None` for an error.
pub uninterp spec fn hs256_verifies(
    signature: Seq<char>,
    message: Seq<char>,
    secret: Seq<u8>,
) -> Option<bool>;

/// The members of the payload of `token`, whoever signed it, and `None`
/// where the token does not have the parts of one or its payload is not a
/// JSON object: what `jsonwebtoken::dangerous_insecure_decode` returns for
/// the two.
pub uninterp spec fn unverified_payload(token: Seq<char>) -> Option<Seq<MemberView>>;

/// The model of a header reading: the algorithm, or `None` for a failure.
pub open spec fn algorithm_view(
    res: Result<SigningAlgorithm, jsonwebtoken::errors::Error>,
) -> Option<SigningAlgorithm> {
    match res {
        Ok(algorithm) => Some(algorithm),
        Err(_) => None,
    }
}

/// The model of a verification: the answer, or `None` for a failure.
pub open spec fn verified_view(res: Result<bool, jsonwebtoken::errors::Error>) -> Option<bool> {
    match res {
        Ok(matches) => Some(matches),
        Err(_) => None,
    }
}

/// The model of a decoding: the payload's members, or `None` for a failure.
pub open spec fn decoded_view(res: Result<Vec<Member>, jsonwebtoken::errors::Error>) -> Option<
    Seq<MemberView>,
> {
    match res {
        Ok(members) => Some(member_views(members@)),
        Err(_) => None,
    }
}

/// `jsonwebtoken::decode_header`: reads the header of a token without
/// looking at its signature, and hands out the algorithm it names.
///
/// Nothing is claimed of which tokens have such a header, only that the
/// answer depends on `token` alone.
#[verifier::external_body]
fn token_algorithm(token: &str) -> (res: Result<SigningAlgorithm, jsonwebtoken::errors::Error>)
    ensures
        header_algorithm(token@) == algorithm_view(res),
{
    decode_header(token).map(|header| match header.alg {
        Algorithm::HS256 => SigningAlgorithm::HS256,
        Algorithm::HS384 => SigningAlgorithm::HS384,
        Algorithm::HS512 => SigningAlgorithm::HS512,
        Algorithm::ES256 => SigningAlgorithm::ES256,
        Algorithm::ES384 => SigningAlgorithm::ES384,
        Algorithm::RS256 => SigningAlgorithm::RS256,
        Algorithm::RS384 => SigningAlgorithm::RS384,
        Algorithm::RS512 => SigningAlgorithm::RS512,
        Algorithm::PS256 => SigningAlgorithm::PS256,
        Algorithm::PS384 => SigningAlgorithm::PS384,
        Algorithm::PS512 => SigningAlgorithm::PS512,
    })
}

/// `jsonwebtoken::crypto::verify` with the algorithm `HS256` and `secret` as
/// the key: signs `message` anew and compares the outcome with `signature`.
///
/// Nothing is claimed of which signatures match, only that the answer
/// depends on the three arguments alone.
#[verifier::external_body]
fn signature_matches(signature: &str, message: &str, secret: &[u8]) -> (res: Result<
    bool,
    jsonwebtoken::errors::Error,
>)
    ensures
        hs256_verifies(signature@, message@, secret@) == verified_view(res),
{
    verify(signature, message, &DecodingKey::from_secret(secret), Algorithm::HS256)
}

/// `jsonwebtoken::dangerous_insecure_decode`: reads the payload of a token
/// without looking at its signature. The token must have three parts, a
/// header that can be read, and a payload that is a JSON object. The
/// object's members are handed out one for one; a member's value that is
/// null, a number, a string, or a list is kept as such, a number with what
/// `serde_json::Number::as_i64` gives for it, and each list item kept where
/// it is a string.
///
/// Nothing is claimed of which tokens decode, only that the answer depends
/// on `token` alone. Where the object's text repeats a member's name, the
/// JSON reader keeps the last of its values, and the library sees the
/// member once.
#[verifier::external_body]
fn unverified_members(token: &str) -> (res: Result<Vec<Member>, jsonwebtoken::errors::Error>)
    ensures
        unverified_payload(token@) == decoded_view(res),
{
    let item = |v| match v { Value::String(s) => Item::Text(s), _ => Item::Other };
    let field = |v| match v {
        Value::Null => Field::Null,
        Value::Number(n) => Field::Number(n.as_i64()),
        Value::String(s) => Field::Text(s),
        Value::Array(a) => Field::List(a.into_iter().map(item).collect()),
        _ => Field::Other,
    };
    dangerous_insecure_decode::<serde_json::Map<String, Value>>(token)
        .map(|data| data.claims.into_iter().map(|(name, v)| Member { name, value: field(v) }).collect())
}

/// The position of the last `sep` in `text`.
pub open spec fn last_index_of(text: Seq<char>, sep: char) -> Option<int>
    decreases text.len(),
{
    if text.len() == 0 {
        None
    } else if text.last() == sep {
        Some(text.len() - 1)
    } else {
        last_index_of(text.drop_last(), sep)
    }
}

/// The payload of `token` where `token` is a token signed with `secret`,
/// and `None` where it is not.
///
/// A token ends in a dot and its signature. What stands before that dot is
/// the signed message. The token is accepted where its header names
/// `HS256`, its signature is the one that `secret` gives for the message,
/// and its payload can be read.
pub open spec fn signed_payload(secret: Seq<u8>, token: Seq<char>) -> Option<Seq<MemberView>> {
    match last_index_of(token, '.') {
        None => None,
        Some(dot) => if header_algorithm(token) == Some(SigningAlgorithm::HS256) && hs256_verifies(
            token.skip(dot + 1),
            token.take(dot),
            secret,
        ) == Some(true) {
            unverified_payload(token)
        } else {
            None
        },
    }
}

/// `SystemTime::now` of the standard library. Nothing is claimed of the
/// reading.
pub assume_specification[ SystemTime::now ]() -> SystemTime;

/// `Duration::as_secs` of the standard library. Nothing is claimed of the
/// number.
pub assume_specification[ Duration::as_secs ](d: &Duration) -> u64;

/// `SystemTime::duration_since`, measured from the Unix epoch. Nothing is
/// claimed of the result.
#[verifier::external_body]
fn since_unix_epoch(reading: &SystemTime) -> Result<Duration, SystemTimeError> {
    reading.duration_since(UNIX_EPOCH)
}

/// The claims of a payload that may be missing.
pub open spec fn carried_claims(payload: Option<Seq<MemberView>>) -> Option<ClaimsView> {
    match payload {
        Some(members) => claims_of_payload(members),
        None => None,
    }
}

/// The claims that `token` carries under `secret`: it is well signed and its
/// payload reads as claims.
pub open spec fn signed_claims(secret: Seq<u8>, token: Seq<char>) -> Option<ClaimsView> {
    carried_claims(signed_payload(secret, token))
}

/// Whether claims are past their validity window at `now`. The instant
/// `exp` itself is still within the window.
pub open spec fn is_expired(claims: ClaimsView, now: int) -> bool {
    claims.exp < now
}

/// The codec's answer for a token whose claims, if it carries any, are
/// `carried`: no claims is an invalid token, stale claims are expired, and
/// fresh claims are handed on.
pub open spec fn verdict(carried: Option<ClaimsView>, now: int) -> Result<ClaimsView, AuthError> {
    match carried {
        None => Err(AuthError::InvalidToken),
        Some(claims) => if is_expired(claims, now) {
            Err(AuthError::Expired)
        } else {
            Ok(claims)
        },
    }
}

/// The model of the codec's result.
pub open spec fn result_view(res: Result<Claims, AuthError>) -> Result<ClaimsView, AuthError> {
    match res {
        Ok(claims) => Ok(claims@),
        Err(e) => Err(e),
    }
}

/// The model of a payload that may be missing.
pub open spec fn payload_view(payload: Option<Payload>) -> Option<Seq<MemberView>> {
    match payload {
        Some(p) => Some(p@),
        None => None,
    }
}

/// The time in whole seconds since the Unix epoch, or `None` where the
/// clock reads earlier than the epoch or later than `i64` can count.
pub(crate) fn current_time() -> (res: Option<i64>)
    ensures
        res matches Some(now) ==> 0 <= now,
{
    let reading = SystemTime::now();
    match since_unix_epoch(&reading) {
        Ok(elapsed) => instant_from_seconds(elapsed.as_secs()),
        Err(_) => None,
    }
}

/// The instant that lies `secs` whole seconds after the Unix epoch, where
/// `i64` can count that far.
pub open spec fn instant_after(secs: u64) -> Option<i64> {
    if secs <= i64::MAX {
        Some(secs as i64)
    } else {
        None
    }
}

/// Turns a count of seconds since the Unix epoch into an instant. A count
/// beyond `i64` gives none, and is never wrapped into the past.
pub fn instant_from_seconds(secs: u64) -> (res: Option<i64>)
    ensures
        res == instant_after(secs),
{
    if secs <= 0x7fff_ffff_ffff_ffff {
        Some(secs as i64)
    } else {
        None
    }
}

/// Judges a decoded payload at the instant `now`.
///
/// A token that did not decode, and a payload that does not read as claims,
/// are the same failure: [`AuthError::InvalidToken`]. Claims whose `exp` lies
/// before `now` are [`AuthError::Expired`]. Anything else is accepted.
pub fn check_payload(payload: Option<Payload>, now: i64) -> (res: Result<Claims, AuthError>)
    ensures
        result_view(res) == verdict(carried_claims(payload_view(payload)), now as int),
{
    let payload = match payload {
        Some(p) => p,
        None => {
            return Err(AuthError::InvalidToken);
        },
    };
    let claims = match claims_from_payload(&payload) {
        Some(c) => c,
        None => {
            return Err(AuthError::InvalidToken);
        },
    };
    if claims.exp < now {
        return Err(AuthError::Expired);
    }
    Ok(claims)
}

/// Splits `text` at its last `sep`: what stands before it and what stands
/// after it. `None` where `text` holds no `sep`.
pub fn split_at_last<'a>(text: &'a str, sep: char) -> (res: Option<(&'a str, &'a str)>)
    ensures
        match res {
            Some((head, tail)) => last_index_of(text@, sep) matches Some(at) && head@
                == text@.take(at) && tail@ == text@.skip(at + 1),
            None => last_index_of(text@, sep) is None,
        },
{
    let len = text.unicode_len();
    let mut found: Option<usize> = None;
    let mut rest = text.chars();
    let mut i: usize = 0;
    assert(text@.take(0).len() == 0);
    loop
        invariant
            i <= len,
            len == text@.len(),
            rest.remaining() == text@.skip(i as int),
            match found {
                Some(at) => at < i && last_index_of(text@.take(i as int), sep) == Some(at as int),
                None => last_index_of(text@.take(i as int), sep) is None,
            },
        ensures
            match found {
                Some(at) => at < len && last_index_of(text@, sep) == Some(at as int),
                None => last_index_of(text@, sep) is None,
            },
        decreases len - i,
    {
        match rest.next() {
            None => {
                assert(text@.skip(i as int).len() == 0);
                assert(text@.take(i as int) =~= text@);
                break;
            },
            Some(c) => {
                proof {
                    let seen = text@.take(i + 1);
                    assert(c == text@.skip(i as int)[0]);
                    assert(seen.last() == c);
                    assert(seen.drop_last() =~= text@.take(i as int));
                    assert(text@.skip(i as int).drop_first() =~= text@.skip(i + 1));
                }
                if c == sep {
                    found = Some(i);
                }
                i += 1;
            },
        }
    }
    match found {
        Some(at) => {
            let head = text.substring_char(0, at);
            let tail = text.substring_char(at + 1, len);
            assert(head@ =~= text@.take(at as int));
            assert(tail@ =~= text@.skip(at + 1));
            Some((head, tail))
        },
        None => None,
    }
}

/// Reads the payload of `token` where `token` is signed with `secret`.
///
/// The token is split at its last dot into the signed message and the
/// signature. The header must name `HS256` and the signature must match
/// before the payload is read.
pub fn decode_signed(secret: &[u8], token: &str) -> (res: Option<Payload>)
    ensures
        payload_view(res) == signed_payload(secret@, token@),
{
    let (message, signature) = match split_at_last(token, '.') {
        Some(parts) => parts,
        None => {
            return None;
        },
    };
    match token_algorithm(token) {
        Ok(SigningAlgorithm::HS256) => {},
        _ => {
            return None;
        },
    }
    match signature_matches(signature, message, secret) {
        Ok(true) => {},
        _ => {
            return None;
        },
    }
    match unverified_members(token) {
        Ok(members) => Some(Payload { members }),
        Err(_) => None,
    }
}

/// Verifies `token` against `secret` and judges its claims at the instant
/// `now`.
pub fn validate_claims_at(secret: &[u8], token: &str, now: i64) -> (res: Result<Claims, AuthError>)
    ensures
        result_view(res) == verdict(signed_claims(secret@, token@), now as int),
{
    check_payload(decode_signed(secret, token), now)
}

/// Verifies `token` against `secret` and judges its claims by the clock.
///
/// A token that carries no claims under `secret` is always
/// [`AuthError::InvalidToken`]. One that does is either accepted with those
/// claims or found [`AuthError::Expired`], as the clock decides. The clock
/// counts from the Unix epoch, so claims that are accepted do not expire
/// before it. Where the clock cannot be read, no token can be shown to be
/// fresh and all that carry claims are expired.
pub fn validate_claims(secret: &[u8], token: &str) -> (res: Result<Claims, AuthError>)
    ensures
        signed_claims(secret@, token@) is None ==> res == Err::<Claims, AuthError>(
            AuthError::InvalidToken,
        ),
        signed_claims(secret@, token@) matches Some(claims) ==> result_view(res) == Ok::<
            ClaimsView,
            AuthError,
        >(claims) || res == Err::<Claims, AuthError>(AuthError::Expired),
        res matches Ok(claims) ==> 0 <= claims.exp,
{
    match current_time() {
        Some(now) => validate_claims_at(secret, token, now),
        None => {
            match validate_claims_at(secret, token, 0x7fff_ffff_ffff_ffff) {
                Ok(_) => Err(AuthError::Expired),
                Err(e) => Err(e),
            }
        },
    }
}

/// Claims whose `exp` lies in the past are rejected as expired, however
/// well the token is signed.
pub proof fn law_expired_is_rejected(claims: ClaimsView, now: int)
    requires
        claims.exp < now,
    ensures
        verdict(Some(claims), now) == Err::<ClaimsView, AuthError>(AuthError::Expired),
{
}

/// Claims whose `exp` has not passed are accepted unchanged.
pub proof fn law_fresh_is_accepted(claims: ClaimsView, now: int)
    requires
        claims.exp >= now,
    ensures
        verdict(Some(claims), now) == Ok::<ClaimsView, AuthError>(claims),
{
}

} // verus!
