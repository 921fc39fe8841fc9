use token_auth::claims::{Claims, ClaimsScope};
use token_auth::error::AuthError;
use token_auth::validator::{scope_is_granted, Check, ClaimsValidator, RequestContext};

fn claims() -> Claims {
    Claims {
        name: None,
        sub: "build/42".to_string(),
        exp: 1_700_003_600,
        jti: None,
        scope: vec![ClaimsScope::Upload],
        prefixes: vec![],
        apps: vec![],
        repos: vec!["stable".to_string()],
        branches: vec![],
        token_type: None,
    }
}

fn context(claims: Claims) -> RequestContext {
    let mut ctx = RequestContext::new();
    ctx.attach(claims);
    ctx
}

fn denied(reason: &str) -> Result<(), AuthError> {
    Err(AuthError::NotEnoughPermissions(reason.to_string()))
}

#[test]
fn scenario_claims_grant_what_they_say() {
    let ctx = context(claims());
    assert_eq!(ctx.has_token_claims("build/42", ClaimsScope::Upload), Ok(()));
    assert_eq!(
        ctx.has_token_claims("build/43", ClaimsScope::Upload),
        denied("Not matching sub 'build/43' in token")
    );
    assert_eq!(ctx.has_token_repo("stable"), Ok(()));
    assert_eq!(ctx.has_token_repo("beta"), denied("Not matching repo in token"));
}

#[test]
fn subject_is_checked_before_scope() {
    let ctx = context(claims());
    assert_eq!(ctx.has_token_claims("build/42/jobs", ClaimsScope::Upload), Ok(()));
    assert_eq!(
        ctx.has_token_claims("build/42", ClaimsScope::Publish),
        denied("Not matching scope 'publish' in token")
    );
    assert_eq!(
        ctx.has_token_claims("build", ClaimsScope::Publish),
        denied("Not matching sub 'build' in token")
    );
    assert_eq!(
        ctx.has_token_claims("build/42", ClaimsScope::ReviewCheck),
        denied("Not matching scope 'reviewcheck' in token")
    );
}

#[test]
fn no_claims_is_a_failure_of_its_own() {
    let ctx = RequestContext::new();
    assert!(ctx.get_claims().is_none());
    assert!(ctx.current().is_none());
    assert_eq!(ctx.has_token_claims("build", ClaimsScope::Build), denied("No token specified"));
    assert_eq!(ctx.has_token_prefix("org.foo"), denied("No token specified"));
    assert_eq!(ctx.has_token_repo("stable"), denied("No token specified"));
    assert_eq!(
        ctx.validate_claims(&Check::Scope(ClaimsScope::Jobs)),
        denied("No token specified")
    );
}

#[test]
fn attached_claims_can_be_read_back() {
    let ctx = context(claims());
    assert_eq!(ctx.get_claims().unwrap().sub, "build/42");
    assert_eq!(ctx.current().unwrap().repos, vec!["stable".to_string()]);
}

#[test]
fn empty_prefix_list_admits_every_identifier() {
    let ctx = context(claims());
    assert_eq!(ctx.has_token_prefix("org.foo.Bar"), Ok(()));
    assert_eq!(ctx.has_token_prefix(""), Ok(()));
    assert_eq!(ctx.has_token_prefix("anything"), Ok(()));
}

#[test]
fn prefixes_restrict_identifiers() {
    let mut c = claims();
    c.prefixes = vec!["org.foo".to_string()];
    let ctx = context(c);
    assert_eq!(ctx.has_token_prefix("org.foo"), Ok(()));
    assert_eq!(ctx.has_token_prefix("org.foo.bar"), Ok(()));
    assert_eq!(
        ctx.has_token_prefix("org.foobar"),
        denied("Id org.foobar not matching prefix in token")
    );
    assert_eq!(ctx.has_token_prefix("org"), denied("Id org not matching prefix in token"));
}

#[test]
fn empty_prefix_entry_is_a_wildcard() {
    let mut c = claims();
    c.prefixes = vec!["org.foo".to_string(), String::new()];
    assert_eq!(context(c).has_token_prefix("net.other"), Ok(()));
}

#[test]
fn apps_match_only_exactly_and_only_beside_prefixes() {
    let mut c = claims();
    c.prefixes = vec!["org.foo".to_string()];
    c.apps = vec!["net.bar.App".to_string()];
    let ctx = context(c);
    assert_eq!(ctx.has_token_prefix("net.bar.App"), Ok(()));
    assert_eq!(
        ctx.has_token_prefix("net.bar.App.Debug"),
        denied("Id net.bar.App.Debug not matching prefix in token")
    );
    assert_eq!(ctx.has_token_prefix("net.bar"), denied("Id net.bar not matching prefix in token"));
    let mut c = claims();
    c.apps = vec!["net.bar.App".to_string()];
    assert_eq!(context(c).has_token_prefix("some.thing.Else"), Ok(()));
}

#[test]
fn repos_need_an_entry() {
    let mut c = claims();
    c.repos = vec![];
    assert_eq!(context(c).has_token_repo("stable"), denied("Not matching repo in token"));
    let mut c = claims();
    c.repos = vec!["beta".to_string(), String::new()];
    assert_eq!(context(c).has_token_repo("stable"), Ok(()));
}

#[test]
fn unknown_scope_is_never_granted() {
    let mut c = claims();
    c.scope = vec![ClaimsScope::Unknown, ClaimsScope::Upload];
    let ctx = context(c);
    assert_eq!(
        ctx.has_token_claims("build/42", ClaimsScope::Unknown),
        denied("Not matching scope 'unknown' in token")
    );
    assert_eq!(ctx.has_token_claims("build/42", ClaimsScope::Upload), Ok(()));
    assert!(!scope_is_granted(&[ClaimsScope::Unknown], ClaimsScope::Unknown));
    assert!(scope_is_granted(&[ClaimsScope::Jobs, ClaimsScope::Jobs], ClaimsScope::Jobs));
    assert!(!scope_is_granted(&[], ClaimsScope::Jobs));
}

#[test]
fn checks_are_plain_values() {
    let c = claims();
    assert!(c.passes(&Check::Subject("build/42/x".to_string())));
    assert!(!c.passes(&Check::Subject("build/420".to_string())));
    assert!(c.passes(&Check::Scope(ClaimsScope::Upload)));
    assert!(!c.passes(&Check::Scope(ClaimsScope::Download)));
    assert!(c.passes(&Check::Prefix("x".to_string())));
    assert!(c.passes(&Check::Repo("stable".to_string())));
    assert!(!c.passes(&Check::Repo("stable2".to_string())));
    let ctx = context(claims());
    assert_eq!(ctx.validate_claims(&Check::Repo("stable".to_string())), Ok(()));
    assert_eq!(
        ctx.validate_claims(&Check::Subject("other".to_string())),
        denied("Not matching sub 'other' in token")
    );
}
