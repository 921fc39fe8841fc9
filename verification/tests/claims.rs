use token_auth::claims::{Claims, ClaimsScope};
use token_auth::payload::{claims_from_payload, Field, Item, Member, Payload};

fn member(name: &str, value: Field) -> Member {
    Member { name: name.to_string(), value }
}

fn text(s: &str) -> Field {
    Field::Text(s.to_string())
}

fn list(items: &[&str]) -> Field {
    Field::List(items.iter().map(|s| Item::Text(s.to_string())).collect())
}

fn all_scopes() -> Vec<ClaimsScope> {
    vec![
        ClaimsScope::Jobs,
        ClaimsScope::Build,
        ClaimsScope::Upload,
        ClaimsScope::Publish,
        ClaimsScope::Generate,
        ClaimsScope::Download,
        ClaimsScope::Republish,
        ClaimsScope::ReviewCheck,
        ClaimsScope::TokenManagement,
        ClaimsScope::Unknown,
    ]
}

#[test]
fn scope_names_are_lower_case() {
    let names: Vec<&str> = all_scopes().iter().map(|s| s.name()).collect();
    assert_eq!(
        names,
        vec![
            "jobs",
            "build",
            "upload",
            "publish",
            "generate",
            "download",
            "republish",
            "reviewcheck",
            "tokenmanagement",
            "unknown"
        ]
    );
}

#[test]
fn scope_is_read_back_from_its_name() {
    for scope in all_scopes() {
        assert_eq!(ClaimsScope::from_name(scope.name()), scope);
    }
}

#[test]
fn unrecognized_scope_names_are_unknown() {
    assert_eq!(ClaimsScope::from_name("Jobs"), ClaimsScope::Unknown);
    assert_eq!(ClaimsScope::from_name("UPLOAD"), ClaimsScope::Unknown);
    assert_eq!(ClaimsScope::from_name(""), ClaimsScope::Unknown);
    assert_eq!(ClaimsScope::from_name("review_check"), ClaimsScope::Unknown);
    assert_eq!(ClaimsScope::from_name("uploads"), ClaimsScope::Unknown);
    assert_eq!(ClaimsScope::from_name("teleport"), ClaimsScope::Unknown);
}

#[test]
fn minimal_payload_reads_with_defaults() {
    let payload = Payload {
        members: vec![member("sub", text("build")), member("exp", Field::Number(Some(1700000000)))],
    };
    let claims = claims_from_payload(&payload).unwrap();
    assert_eq!(claims.name, None);
    assert_eq!(claims.sub, "build");
    assert_eq!(claims.exp, 1700000000);
    assert_eq!(claims.jti, None);
    assert!(claims.scope.is_empty());
    assert!(claims.prefixes.is_empty());
    assert!(claims.apps.is_empty());
    assert!(claims.repos.is_empty());
    assert!(claims.branches.is_empty());
    assert_eq!(claims.token_type, None);
}

#[test]
fn full_payload_reads_every_member() {
    let payload = Payload {
        members: vec![
            member("name", text("ci")),
            member("sub", text("build/42")),
            member("exp", Field::Number(Some(-5))),
            member("jti", text("id-1")),
            member("scope", list(&["upload", "publish", "teleport"])),
            member("prefixes", list(&["org.foo", ""])),
            member("apps", list(&["org.bar.App"])),
            member("repos", list(&["stable", "beta"])),
            member("branches", list(&["main"])),
            member("token_type", text("app")),
            member("iat", Field::Number(Some(12))),
            member("extra", Field::Other),
        ],
    };
    let claims = claims_from_payload(&payload).unwrap();
    assert_eq!(claims.name.as_deref(), Some("ci"));
    assert_eq!(claims.sub, "build/42");
    assert_eq!(claims.exp, -5);
    assert_eq!(claims.jti.as_deref(), Some("id-1"));
    assert_eq!(
        claims.scope,
        vec![ClaimsScope::Upload, ClaimsScope::Publish, ClaimsScope::Unknown]
    );
    assert_eq!(claims.prefixes, vec!["org.foo".to_string(), String::new()]);
    assert_eq!(claims.apps, vec!["org.bar.App".to_string()]);
    assert_eq!(claims.repos, vec!["stable".to_string(), "beta".to_string()]);
    assert_eq!(claims.branches, vec!["main".to_string()]);
    assert_eq!(claims.token_type.as_deref(), Some("app"));
}

#[test]
fn null_stands_for_a_missing_optional_member() {
    let payload = Payload {
        members: vec![
            member("name", Field::Null),
            member("sub", text("")),
            member("exp", Field::Number(Some(0))),
            member("jti", Field::Null),
            member("token_type", Field::Null),
        ],
    };
    let claims = claims_from_payload(&payload).unwrap();
    assert_eq!(claims.name, None);
    assert_eq!(claims.jti, None);
    assert_eq!(claims.token_type, None);
    assert_eq!(claims.sub, "");
}

#[test]
fn required_members_must_be_present() {
    let no_sub = Payload { members: vec![member("exp", Field::Number(Some(1)))] };
    assert!(claims_from_payload(&no_sub).is_none());
    let no_exp = Payload { members: vec![member("sub", text("build"))] };
    assert!(claims_from_payload(&no_exp).is_none());
    assert!(claims_from_payload(&Payload { members: vec![] }).is_none());
}

#[test]
fn member_names_are_case_sensitive() {
    let payload = Payload {
        members: vec![member("Sub", text("build")), member("exp", Field::Number(Some(1)))],
    };
    assert!(claims_from_payload(&payload).is_none());
    let payload = Payload {
        members: vec![
            member("sub", text("build")),
            member("exp", Field::Number(Some(1))),
            member("Repos", list(&["stable"])),
        ],
    };
    assert!(claims_from_payload(&payload).unwrap().repos.is_empty());
}

fn with_extra(name: &str, value: Field) -> Option<Claims> {
    claims_from_payload(&Payload {
        members: vec![
            member("sub", text("build")),
            member("exp", Field::Number(Some(1))),
            member(name, value),
        ],
    })
}

#[test]
fn wrong_shapes_are_rejected() {
    assert!(with_extra("name", Field::Number(Some(3))).is_none());
    assert!(with_extra("jti", Field::List(vec![])).is_none());
    assert!(with_extra("token_type", Field::Other).is_none());
    assert!(with_extra("scope", Field::Null).is_none());
    assert!(with_extra("scope", text("upload")).is_none());
    assert!(with_extra("scope", Field::List(vec![Item::Other])).is_none());
    assert!(with_extra("prefixes", Field::Null).is_none());
    assert!(with_extra("apps", Field::Other).is_none());
    assert!(with_extra("repos", Field::List(vec![Item::Text("a".to_string()), Item::Other]))
        .is_none());
    assert!(with_extra("branches", Field::Number(Some(1))).is_none());
    assert!(with_extra("ignored", Field::Other).is_some());
}

#[test]
fn expiry_must_be_a_whole_number_in_range() {
    let payload = |exp: Field| Payload { members: vec![member("sub", text("b")), member("exp", exp)] };
    assert!(claims_from_payload(&payload(Field::Number(None))).is_none());
    assert!(claims_from_payload(&payload(text("12"))).is_none());
    assert!(claims_from_payload(&payload(Field::Null)).is_none());
    assert_eq!(
        claims_from_payload(&payload(Field::Number(Some(i64::MAX)))).unwrap().exp,
        i64::MAX
    );
    assert_eq!(
        claims_from_payload(&payload(Field::Number(Some(i64::MIN)))).unwrap().exp,
        i64::MIN
    );
}

#[test]
fn first_member_of_a_name_wins() {
    let payload = Payload {
        members: vec![
            member("sub", text("first")),
            member("sub", text("second")),
            member("exp", Field::Number(Some(1))),
        ],
    };
    assert_eq!(claims_from_payload(&payload).unwrap().sub, "first");
    assert!(payload.get("sub").is_some());
    assert!(payload.get("subject").is_none());
}

#[test]
fn clone_keeps_every_field() {
    let claims = Claims {
        name: Some("n".to_string()),
        sub: "build/1".to_string(),
        exp: 77,
        jti: Some("j".to_string()),
        scope: vec![ClaimsScope::Jobs, ClaimsScope::Unknown],
        prefixes: vec!["a".to_string()],
        apps: vec!["b".to_string()],
        repos: vec!["c".to_string()],
        branches: vec!["d".to_string()],
        token_type: Some("app".to_string()),
    };
    let copy = claims.clone();
    assert_eq!(format!("{:?}", copy), format!("{:?}", claims));
}
