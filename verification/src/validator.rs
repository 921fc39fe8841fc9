//! The capability checks that handlers run against the claims attached to a
//! request.
//!
//! A check is a value, not a function: one of a small closed set, evaluated
//! by one interpreter. A request that carries no claims fails every check
//! with a reason of its own, so that "never authenticated" can be told from
//! "denied by policy".

use crate::claims::{scope_name, Claims, ClaimsScope, ClaimsView};
use crate::error::AuthError;
use crate::matchers::{
    any_prefix_covers, any_repo_covers, id_matches_one_prefix, lists_name, name_is_listed,
    repo_matches_one_claimed, sub_covers, sub_has_prefix,
};
use vstd::prelude::*;
use vstd::string::StringExecFns;

verus! {

/// One capability that an operation may require of the claims.
#[derive(Debug)]
pub enum Check {
    /// The claimed subject covers this subject path.
    Subject(String),
    /// This scope is among the granted ones.
    Scope(ClaimsScope),
    /// The claims allow acting on this identifier.
    Prefix(String),
    /// The claims allow acting on this repository.
    Repo(String),
}

/// The model of [`Check`].
pub enum CheckView {
    Subject(Seq<char>),
    Scope(ClaimsScope),
    Prefix(Seq<char>),
    Repo(Seq<char>),
}

impl View for Check {
    type V = CheckView;

    open spec fn view(&self) -> CheckView {
        match self {
            Check::Subject(sub) => CheckView::Subject(sub@),
            Check::Scope(scope) => CheckView::Scope(*scope),
            Check::Prefix(id) => CheckView::Prefix(id@),
            Check::Repo(repo) => CheckView::Repo(repo@),
        }
    }
}

/// Whether `granted` holds the scope `required`. The unknown scope is never
/// held: it stands for no capability, whatever a token lists.
pub open spec fn grants(granted: Seq<ClaimsScope>, required: ClaimsScope) -> bool {
    required != ClaimsScope::Unknown && granted.contains(required)
}

/// Whether the claims allow acting on the identifier `id`: they restrict
/// no identifier, or one of their prefixes covers `id`, or `id` is listed
/// among their apps by its exact name.
pub open spec fn allows_id(claims: ClaimsView, id: Seq<char>) -> bool {
    claims.prefixes.len() == 0 || any_prefix_covers(id, claims.prefixes) || lists_name(
        claims.apps,
        id,
    )
}

/// Whether the claims pass the check.
pub open spec fn permits(claims: ClaimsView, check: CheckView) -> bool {
    match check {
        CheckView::Subject(sub) => sub_covers(sub, claims.sub),
        CheckView::Scope(scope) => grants(claims.scope, scope),
        CheckView::Prefix(id) => allows_id(claims, id),
        CheckView::Repo(repo) => any_repo_covers(repo, claims.repos),
    }
}

/// What a failed check reports.
pub open spec fn denial_reason(check: CheckView) -> Seq<char> {
    match check {
        CheckView::Subject(sub) => "Not matching sub '"@ + sub + "' in token"@,
        CheckView::Scope(scope) => "Not matching scope '"@ + scope_name(scope) + "' in token"@,
        CheckView::Prefix(id) => "Id "@ + id + " not matching prefix in token"@,
        CheckView::Repo(_) => "Not matching repo in token"@,
    }
}

/// What a check reports where no claims are attached.
pub open spec fn no_token_reason() -> Seq<char> {
    "No token specified"@
}

/// The outcome of one check against claims that may be missing: `None`
/// where it passes, the reason where it fails.
pub open spec fn check_outcome(attached: Option<ClaimsView>, check: CheckView) -> Option<Seq<char>> {
    match attached {
        None => Some(no_token_reason()),
        Some(claims) => if permits(claims, check) {
            None
        } else {
            Some(denial_reason(check))
        },
    }
}

/// The outcome of one check after another: the first failure, if any.
pub open spec fn both_outcomes(first: Option<Seq<char>>, second: Option<Seq<char>>) -> Option<
    Seq<char>,
> {
    if first is Some {
        first
    } else {
        second
    }
}

/// Whether a result reports exactly this outcome.
pub open spec fn reports(res: Result<(), AuthError>, outcome: Option<Seq<char>>) -> bool {
    match res {
        Ok(_) => outcome is None,
        Err(e) => outcome matches Some(reason) && e.denies_with(reason),
    }
}

/// Whether `required` is among `granted`.
pub fn scope_is_granted(granted: &[ClaimsScope], required: ClaimsScope) -> (res: bool)
    ensures
        res == grants(granted@, required),
{
    if required == ClaimsScope::Unknown {
        return false;
    }
    let mut i: usize = 0;
    while i < granted.len()
        invariant
            i <= granted@.len(),
            required != ClaimsScope::Unknown,
            forall|j: int| 0 <= j < i ==> granted@[j] != required,
        decreases granted@.len() - i,
    {
        if granted[i] == required {
            return true;
        }
        i += 1;
    }
    false
}

/// The text of a failed check.
fn reason_of(check: &Check) -> (res: String)
    ensures
        res@ == denial_reason(check@),
{
    match check {
        Check::Subject(sub) => {
            let mut text = String::from_str("Not matching sub '");
            text.append(sub.as_str());
            text.append("' in token");
            text
        },
        Check::Scope(scope) => {
            let mut text = String::from_str("Not matching scope '");
            text.append(scope.name());
            text.append("' in token");
            text
        },
        Check::Prefix(id) => {
            let mut text = String::from_str("Id ");
            text.append(id.as_str());
            text.append(" not matching prefix in token");
            text
        },
        Check::Repo(_) => String::from_str("Not matching repo in token"),
    }
}

impl Claims {
    /// Whether the claims pass the check.
    pub fn passes(&self, check: &Check) -> (res: bool)
        ensures
            res == permits(self@, check@),
    {
        match check {
            Check::Subject(sub) => sub_has_prefix(sub.as_str(), self.sub.as_str()),
            Check::Scope(scope) => scope_is_granted(self.scope.as_slice(), *scope),
            Check::Prefix(id) => {
                if self.prefixes.len() == 0 {
                    return true;
                }
                id_matches_one_prefix(id.as_str(), self.prefixes.as_slice()) || name_is_listed(
                    self.apps.as_slice(),
                    id.as_str(),
                )
            },
            Check::Repo(repo) => repo_matches_one_claimed(repo.as_str(), self.repos.as_slice()),
        }
    }
}

/// The capability checks of a request.
pub trait ClaimsValidator {
    /// The claims attached to the request, if any.
    spec fn attached(&self) -> Option<ClaimsView>;

    /// A copy of the attached claims.
    fn get_claims(&self) -> (res: Option<Claims>)
        ensures
            res.is_some() == self.attached().is_some(),
            res matches Some(claims) ==> self.attached() == Some(claims@),
    ;

    /// Runs one check. Without claims the check is not evaluated and the
    /// request is refused for having presented no token.
    fn validate_claims(&self, check: &Check) -> (res: Result<(), AuthError>)
        ensures
            reports(res, check_outcome(self.attached(), check@)),
    ;

    /// Requires that the claimed subject covers `required_sub` and that
    /// `required_scope` is granted, in that order.
    fn has_token_claims(&self, required_sub: &str, required_scope: ClaimsScope) -> (res: Result<
        (),
        AuthError,
    >)
        ensures
            reports(
                res,
                both_outcomes(
                    check_outcome(self.attached(), CheckView::Subject(required_sub@)),
                    check_outcome(self.attached(), CheckView::Scope(required_scope)),
                ),
            ),
    ;

    /// Requires that the claims allow acting on `id`.
    fn has_token_prefix(&self, id: &str) -> (res: Result<(), AuthError>)
        ensures
            reports(res, check_outcome(self.attached(), CheckView::Prefix(id@))),
    ;

    /// Requires that the claims allow acting on `repo`.
    fn has_token_repo(&self, repo: &str) -> (res: Result<(), AuthError>)
        ensures
            reports(res, check_outcome(self.attached(), CheckView::Repo(repo@))),
    ;
}

/// What one request knows of its caller: the claims of the token it
/// presented, attached once when the token has been accepted.
#[derive(Debug)]
pub struct RequestContext {
    claims: Option<Claims>,
}

impl View for RequestContext {
    type V = Option<ClaimsView>;

    closed spec fn view(&self) -> Option<ClaimsView> {
        match self.claims {
            Some(claims) => Some(claims@),
            None => None,
        }
    }
}

impl RequestContext {
    /// The context of a request that presented no token.
    pub fn new() -> (res: RequestContext)
        ensures
            res@ is None,
    {
        RequestContext { claims: None }
    }

    /// Attaches the claims of an accepted token.
    pub fn attach(&mut self, claims: Claims)
        ensures
            final(self)@ == Some(claims@),
    {
        self.claims = Some(claims);
    }

    /// The attached claims.
    pub fn current(&self) -> (res: Option<&Claims>)
        ensures
            res.is_some() == self@.is_some(),
            res matches Some(claims) ==> self@ == Some(claims@),
    {
        self.claims.as_ref()
    }
}

impl ClaimsValidator for RequestContext {
    open spec fn attached(&self) -> Option<ClaimsView> {
        self@
    }

    fn get_claims(&self) -> (res: Option<Claims>) {
        match &self.claims {
            Some(claims) => Some(claims.clone()),
            None => None,
        }
    }

    fn validate_claims(&self, check: &Check) -> (res: Result<(), AuthError>) {
        match &self.claims {
            Some(claims) => {
                if claims.passes(check) {
                    Ok(())
                } else {
                    Err(AuthError::NotEnoughPermissions(reason_of(check)))
                }
            },
            None => Err(AuthError::NotEnoughPermissions(String::from_str("No token specified"))),
        }
    }

    fn has_token_claims(&self, required_sub: &str, required_scope: ClaimsScope) -> (res: Result<
        (),
        AuthError,
    >) {
        let subject = Check::Subject(String::from_str(required_sub));
        match self.validate_claims(&subject) {
            Ok(_) => self.validate_claims(&Check::Scope(required_scope)),
            Err(e) => Err(e),
        }
    }

    fn has_token_prefix(&self, id: &str) -> (res: Result<(), AuthError>) {
        self.validate_claims(&Check::Prefix(String::from_str(id)))
    }

    fn has_token_repo(&self, repo: &str) -> (res: Result<(), AuthError>) {
        self.validate_claims(&Check::Repo(String::from_str(repo)))
    }
}

/// Claims with an empty list of prefixes allow acting on every identifier.
pub proof fn law_no_prefixes_allow_all(claims: ClaimsView, id: Seq<char>)
    requires
        claims.prefixes.len() == 0,
    ensures
        permits(claims, CheckView::Prefix(id)),
        check_outcome(Some(claims), CheckView::Prefix(id)) is None,
{
}

/// Claims with an empty prefix among their prefixes allow acting on every
/// identifier.
pub proof fn law_empty_prefix_allows_all(claims: ClaimsView, id: Seq<char>, i: int)
    requires
        0 <= i < claims.prefixes.len(),
        claims.prefixes[i].len() == 0,
    ensures
        permits(claims, CheckView::Prefix(id)),
{
}

/// No token grants the unknown scope, not even one that lists it.
pub proof fn law_unknown_scope_grants_nothing(claims: ClaimsView)
    ensures
        !permits(claims, CheckView::Scope(ClaimsScope::Unknown)),
{
}

/// Without claims every check fails, and with the reason that no token was
/// presented, which no failed check against claims reports.
pub proof fn law_no_claims_is_distinct(claims: ClaimsView, check: CheckView)
    ensures
        check_outcome(None, check) == Some(no_token_reason()),
        check_outcome(Some(claims), check) != Some(no_token_reason()),
{
    reveal_strlit("No token specified");
    reveal_strlit("Not matching sub '");
    reveal_strlit("Not matching scope '");
    reveal_strlit("Id ");
    reveal_strlit("Not matching repo in token");
    let reason = denial_reason(check);
    match check {
        CheckView::Subject(sub) => {
            assert(reason[2] == 't');
        },
        CheckView::Scope(scope) => {
            assert(reason[2] == 't');
        },
        CheckView::Prefix(id) => {
            assert(reason[0] == 'I');
        },
        CheckView::Repo(_) => {
            assert(reason.len() != no_token_reason().len());
        },
    }
}

} // verus!
