//! The authorization engine: what becomes of one request's token, step by
//! step.
//!
//! The engine decides and never waits. Where a token carries an identifier,
//! the engine stops and names the one lookup that the revocation store owes
//! it; the caller performs the lookup and hands the answer back. Every other
//! step is taken at once.

use crate::claims::{Claims, ClaimsView};
use crate::codec::{current_time, result_view, signed_claims, validate_claims_at, verdict};
use crate::error::AuthError;
use crate::header::{get_token, header_bytes, requested_token};
use vstd::prelude::*;
use vstd::slice::slice_to_vec;

verus! {

/// The part of the service's configuration that the engine reads.
#[derive(Debug)]
pub struct Config {
    /// A literal that legacy tokens begin with and that is taken off before
    /// a token is verified.
    pub token_prefix: Option<String>,
}

/// The engine's settings, fixed when the service starts.
#[derive(Debug)]
pub struct Inner {
    prefix: Option<String>,
    secret: Vec<u8>,
    optional: bool,
}

/// The model of [`Inner`].
pub struct InnerView {
    pub prefix: Option<Seq<char>>,
    pub secret: Seq<u8>,
    pub optional: bool,
}

impl View for Inner {
    type V = InnerView;

    closed spec fn view(&self) -> InnerView {
        InnerView { prefix: self.prefix.deep_view(), secret: self.secret@, optional: self.optional }
    }
}

impl Clone for Inner {
    fn clone(&self) -> (res: Self)
        ensures
            res@ == self@,
    {
        Inner { prefix: self.prefix.clone(), secret: self.secret.clone(), optional: self.optional }
    }
}

/// Builds the engine for one service: with [`TokenParser::new`] every
/// request must present a token, with [`TokenParser::optional`] a request
/// may come without one.
#[derive(Debug)]
pub struct TokenParser(Inner);

/// The engine as it serves requests.
#[derive(Debug)]
pub struct TokenParserMiddleware {
    inner: Inner,
}

impl View for TokenParser {
    type V = InnerView;

    closed spec fn view(&self) -> InnerView {
        self.0@
    }
}

impl View for TokenParserMiddleware {
    type V = InnerView;

    closed spec fn view(&self) -> InnerView {
        self.inner@
    }
}

/// What has been decided for a request. Both outcomes are final.
#[derive(Debug)]
pub enum Decision {
    /// The request is refused with this error.
    Reject(AuthError),
    /// The request goes on to its handler, with these claims attached if it
    /// presented a token.
    Proceed(Option<Claims>),
}

/// What the engine asks next.
#[derive(Debug)]
pub enum Step {
    /// Nothing: the request's fate is decided.
    Done(Decision),
    /// One lookup in the revocation store, for the token with this
    /// identifier and expiry. The claims wait for the answer.
    CheckRevocation { jti: String, exp: i64, claims: Claims },
}

/// The model of [`Decision`].
pub enum DecisionView {
    Reject(AuthError),
    Proceed(Option<ClaimsView>),
}

/// The model of [`Step`].
pub enum StepView {
    Done(DecisionView),
    CheckRevocation { jti: Seq<char>, exp: int, claims: ClaimsView },
}

impl View for Decision {
    type V = DecisionView;

    open spec fn view(&self) -> DecisionView {
        match self {
            Decision::Reject(e) => DecisionView::Reject(*e),
            Decision::Proceed(Some(claims)) => DecisionView::Proceed(Some(claims@)),
            Decision::Proceed(None) => DecisionView::Proceed(None),
        }
    }
}

impl View for Step {
    type V = StepView;

    open spec fn view(&self) -> StepView {
        match self {
            Step::Done(decision) => StepView::Done(decision@),
            Step::CheckRevocation { jti, exp, claims } => StepView::CheckRevocation {
                jti: jti@,
                exp: *exp as int,
                claims: claims@,
            },
        }
    }
}

/// The step after the codec has judged a token: a rejection is final,
/// claims without an identifier are accepted as they are, and claims with
/// one wait for the revocation store.
pub open spec fn step_after_codec(judged: Result<ClaimsView, AuthError>) -> StepView {
    match judged {
        Err(e) => StepView::Done(DecisionView::Reject(e)),
        Ok(claims) => match claims.jti {
            Some(jti) => StepView::CheckRevocation { jti, exp: claims.exp, claims },
            None => StepView::Done(DecisionView::Proceed(Some(claims))),
        },
    }
}

/// The step for a token, judged at `now`.
pub open spec fn token_step(secret: Seq<u8>, token: Seq<char>, now: int) -> StepView {
    step_after_codec(verdict(signed_claims(secret, token), now))
}

/// The first step for a request with this header, judged at `now`.
pub open spec fn first_step(settings: InnerView, header: Option<Seq<u8>>, now: int) -> StepView {
    match requested_token(settings.optional, settings.prefix, header) {
        Err(e) => StepView::Done(DecisionView::Reject(e)),
        Ok(None) => StepView::Done(DecisionView::Proceed(None)),
        Ok(Some(token)) => token_step(settings.secret, token, now),
    }
}

/// The decision once the revocation store has answered. Any answer but a
/// clearance refuses the request: a store that cannot be asked revokes.
pub open spec fn decision_after_lookup(claims: ClaimsView, cleared: bool) -> DecisionView {
    if cleared {
        DecisionView::Proceed(Some(claims))
    } else {
        DecisionView::Reject(AuthError::Revoked)
    }
}

/// The decision for a request from its first step to its last, where the
/// store would answer `cleared` if it were asked.
pub open spec fn authenticate(
    settings: InnerView,
    header: Option<Seq<u8>>,
    now: int,
    cleared: bool,
) -> DecisionView {
    match first_step(settings, header, now) {
        StepView::Done(decision) => decision,
        StepView::CheckRevocation { jti, exp, claims } => decision_after_lookup(claims, cleared),
    }
}

/// Whether refused claims are worth a line in the audit log: the handler
/// answered 401 or 403 to a request that had presented a token.
pub open spec fn is_denied_with_claims(status: u16, has_claims: bool) -> bool {
    has_claims && (status == 401 || status == 403)
}

impl TokenParser {
    /// An engine that requires a token of every request.
    pub fn new(config: &Config, secret: &[u8]) -> (res: TokenParser)
        ensures
            res@ == (InnerView {
                prefix: config.token_prefix.deep_view(),
                secret: secret@,
                optional: false,
            }),
    {
        TokenParser(
            Inner {
                prefix: config.token_prefix.clone(),
                secret: slice_to_vec(secret),
                optional: false,
            },
        )
    }

    /// An engine that lets requests without a token through, with no
    /// claims.
    pub fn optional(config: &Config, secret: &[u8]) -> (res: TokenParser)
        ensures
            res@ == (InnerView {
                prefix: config.token_prefix.deep_view(),
                secret: secret@,
                optional: true,
            }),
    {
        TokenParser(
            Inner {
                prefix: config.token_prefix.clone(),
                secret: slice_to_vec(secret),
                optional: true,
            },
        )
    }

    /// The engine for one worker, with the same settings.
    pub fn new_transform(&self) -> (res: TokenParserMiddleware)
        ensures
            res@ == self@,
    {
        TokenParserMiddleware { inner: self.0.clone() }
    }
}

/// The step after the codec's judgement.
pub fn step_for(judged: Result<Claims, AuthError>) -> (res: Step)
    ensures
        res@ == step_after_codec(result_view(judged)),
{
    match judged {
        Err(e) => Step::Done(Decision::Reject(e)),
        Ok(claims) => {
            match &claims.jti {
                Some(jti) => {
                    let jti = jti.clone();
                    let exp = claims.exp;
                    Step::CheckRevocation { jti, exp, claims }
                },
                None => Step::Done(Decision::Proceed(Some(claims))),
            }
        },
    }
}

/// Verifies a token and judges it at `now`; where it carries an identifier,
/// asks for the revocation lookup.
pub fn check_token_at(secret: &[u8], token: &str, now: i64) -> (res: Step)
    ensures
        res@ == token_step(secret@, token@, now as int),
{
    step_for(validate_claims_at(secret, token, now))
}

/// The decision once the revocation store has answered for `claims`.
pub fn finish(claims: Claims, cleared: bool) -> (res: Decision)
    ensures
        res@ == decision_after_lookup(claims@, cleared),
{
    if cleared {
        Decision::Proceed(Some(claims))
    } else {
        Decision::Reject(AuthError::Revoked)
    }
}

/// Whether the claims of a refused request should be written to the audit
/// log.
pub fn should_log_claims(status: u16, has_claims: bool) -> (res: bool)
    ensures
        res == is_denied_with_claims(status, has_claims),
{
    has_claims && (status == 401 || status == 403)
}

impl TokenParserMiddleware {
    /// Whether requests may come without a token.
    pub fn is_optional(&self) -> (res: bool)
        ensures
            res == self@.optional,
    {
        self.inner.optional
    }

    /// The first step for a request with this `Authorization` header,
    /// judged at `now`.
    pub fn call_at(&self, header: Option<&[u8]>, now: i64) -> (res: Step)
        ensures
            res@ == first_step(self@, header_bytes(header), now as int),
    {
        match get_token(self.inner.optional, self.inner.prefix.clone(), header) {
            Err(e) => Step::Done(Decision::Reject(e)),
            Ok(None) => Step::Done(Decision::Proceed(None)),
            Ok(Some(token)) => check_token_at(self.inner.secret.as_slice(), token.as_str(), now),
        }
    }

    /// Decides a request in one call, for a revocation store that answers
    /// at once: `lookup` is given the identifier and expiry of a token that
    /// carries an identifier, and says whether the store clears it. It is
    /// called at most once, and only for a token that is well signed and
    /// not expired.
    pub fn authenticate_at<F: FnOnce(&str, i64) -> bool>(
        &self,
        header: Option<&[u8]>,
        now: i64,
        lookup: F,
    ) -> (res: Decision)
        requires
            forall|jti: &str, exp: i64| lookup.requires((jti, exp)),
        ensures
            match first_step(self@, header_bytes(header), now as int) {
                StepView::Done(decision) => res@ == decision,
                StepView::CheckRevocation { jti, exp, claims } => exists|
                    asked: &str,
                    cleared: bool,
                |
                    asked@ == jti && lookup.ensures((asked, exp as i64), cleared) && res@
                        == decision_after_lookup(claims, cleared),
            },
            exists|cleared: bool|
                res@ == authenticate(self@, header_bytes(header), now as int, cleared),
    {
        match self.call_at(header, now) {
            Step::Done(decision) => {
                assert(decision@ == authenticate(self@, header_bytes(header), now as int, true));
                decision
            },
            Step::CheckRevocation { jti, exp, claims } => {
                let cleared = lookup(jti.as_str(), exp);
                let decision = finish(claims, cleared);
                assert(decision@ == authenticate(
                    self@,
                    header_bytes(header),
                    now as int,
                    cleared,
                ));
                decision
            },
        }
    }

    /// The first step for a request with this `Authorization` header,
    /// judged by the clock.
    ///
    /// What does not depend on the time is decided as [`first_step`] says:
    /// a missing or malformed header, and a token that carries no claims
    /// under the secret. A token that carries claims is judged at the
    /// instant the clock gives, which is never before the Unix epoch; where
    /// the clock cannot be read, it is expired.
    pub fn call(&self, header: Option<&[u8]>) -> (res: Step)
        ensures
            (exists|now: int| 0 <= now && res@ == first_step(self@, header_bytes(header), now))
                || res@ == StepView::Done(DecisionView::Reject(AuthError::Expired)),
            requested_token(self@.optional, self@.prefix, header_bytes(header)) matches Ok(
                Some(token),
            ) && signed_claims(self@.secret, token) is None ==> res@ == StepView::Done(
                DecisionView::Reject(AuthError::InvalidToken),
            ),
            requested_token(self@.optional, self@.prefix, header_bytes(header)) matches Err(e)
                ==> res@ == StepView::Done(DecisionView::Reject(e)),
            requested_token(self@.optional, self@.prefix, header_bytes(header)) == Ok::<
                Option<Seq<char>>,
                AuthError,
            >(None) ==> res@ == StepView::Done(DecisionView::Proceed(None)),
    {
        match current_time() {
            Some(now) => self.call_at(header, now),
            None => {
                match self.call_at(header, 0x7fff_ffff_ffff_ffff) {
                    Step::Done(Decision::Proceed(Some(_))) => Step::Done(
                        Decision::Reject(AuthError::Expired),
                    ),
                    Step::CheckRevocation { .. } => Step::Done(Decision::Reject(AuthError::Expired)),
                    other => other,
                }
            },
        }
    }
}

/// A request without the header goes on without claims where tokens are
/// optional, and is refused for the missing header where they are required.
pub proof fn law_absent_header_decides(settings: InnerView, now: int, cleared: bool)
    ensures
        settings.optional ==> authenticate(settings, None, now, cleared) == DecisionView::Proceed(
            None,
        ),
        !settings.optional ==> authenticate(settings, None, now, cleared) == DecisionView::Reject(
            AuthError::MissingHeader,
        ),
{
}

/// A token whose claims are past their expiry is refused as expired, and
/// the revocation store is not asked.
pub proof fn law_expired_before_revocation(
    settings: InnerView,
    header: Seq<u8>,
    token: Seq<char>,
    claims: ClaimsView,
    now: int,
    cleared: bool,
)
    requires
        requested_token(settings.optional, settings.prefix, Some(header)) == Ok::<
            Option<Seq<char>>,
            AuthError,
        >(Some(token)),
        signed_claims(settings.secret, token) == Some(claims),
        claims.exp < now,
    ensures
        first_step(settings, Some(header), now) == StepView::Done(
            DecisionView::Reject(AuthError::Expired),
        ),
        authenticate(settings, Some(header), now, cleared) == DecisionView::Reject(
            AuthError::Expired,
        ),
{
}

/// A token that carries an identifier and is not cleared by the revocation
/// store is refused as revoked, even though it has not expired.
pub proof fn law_revoked_is_rejected(
    settings: InnerView,
    header: Seq<u8>,
    token: Seq<char>,
    claims: ClaimsView,
    now: int,
)
    requires
        requested_token(settings.optional, settings.prefix, Some(header)) == Ok::<
            Option<Seq<char>>,
            AuthError,
        >(Some(token)),
        signed_claims(settings.secret, token) == Some(claims),
        claims.exp >= now,
        claims.jti is Some,
    ensures
        first_step(settings, Some(header), now) == (StepView::CheckRevocation {
            jti: claims.jti->0,
            exp: claims.exp,
            claims,
        }),
        authenticate(settings, Some(header), now, false) == DecisionView::Reject(
            AuthError::Revoked,
        ),
        authenticate(settings, Some(header), now, true) == DecisionView::Proceed(Some(claims)),
{
}

/// A token without an identifier is never put to the revocation store: the
/// store's answer does not change the decision.
pub proof fn law_no_identifier_no_lookup(
    settings: InnerView,
    header: Option<Seq<u8>>,
    now: int,
)
    requires
        first_step(settings, header, now) is Done,
    ensures
        authenticate(settings, header, now, true) == authenticate(settings, header, now, false),
{
}

} // verus!
