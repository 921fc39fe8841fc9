use token_auth::matchers::{
    id_matches_one_prefix, id_matches_prefix, repo_matches_claimed, repo_matches_one_claimed,
    sub_has_prefix,
};

#[test]
fn subject_matches_itself_and_its_children() {
    assert!(sub_has_prefix("build", "build"));
    assert!(sub_has_prefix("build/7", "build"));
    assert!(sub_has_prefix("build/7/jobs", "build"));
    assert!(!sub_has_prefix("buildx", "build"));
    assert!(!sub_has_prefix("build", "build/7"));
    assert!(sub_has_prefix("build/7/jobs", "build/7"));
    assert!(!sub_has_prefix("build/70", "build/7"));
}

#[test]
fn empty_claimed_subject_covers_only_rooted_paths() {
    assert!(sub_has_prefix("", ""));
    assert!(sub_has_prefix("/x", ""));
    assert!(!sub_has_prefix("x", ""));
}

#[test]
fn prefix_matches_at_dot_boundary_only() {
    assert!(id_matches_prefix("org.foo.bar", "org.foo"));
    assert!(id_matches_prefix("org.foo", "org.foo"));
    assert!(!id_matches_prefix("org.foobar", "org.foo"));
    assert!(!id_matches_prefix("org", "org.foo"));
}

#[test]
fn empty_prefix_matches_everything() {
    assert!(id_matches_prefix("org.foo.bar", ""));
    assert!(id_matches_prefix("", ""));
    assert!(id_matches_prefix("anything at all", ""));
}

#[test]
fn one_prefix_is_enough() {
    let prefixes = vec!["org.foo".to_string(), "net.bar".to_string()];
    assert!(id_matches_one_prefix("net.bar.Baz", &prefixes));
    assert!(id_matches_one_prefix("org.foo", &prefixes));
    assert!(!id_matches_one_prefix("net.barbaz", &prefixes));
    assert!(!id_matches_one_prefix("org.foo", &[]));
    assert!(id_matches_one_prefix("whatever", &["".to_string()]));
}

#[test]
fn repo_matches_exactly_or_by_wildcard() {
    assert!(repo_matches_claimed("stable", ""));
    assert!(repo_matches_claimed("", ""));
    assert!(!repo_matches_claimed("a", "b"));
    assert!(repo_matches_claimed("a", "a"));
    assert!(!repo_matches_claimed("stable-beta", "stable"));
    assert!(!repo_matches_claimed("stable", "stable-beta"));
}

#[test]
fn one_claimed_repo_is_enough() {
    let repos = vec!["stable".to_string(), "beta".to_string()];
    assert!(repo_matches_one_claimed("beta", &repos));
    assert!(!repo_matches_one_claimed("nightly", &repos));
    assert!(!repo_matches_one_claimed("stable", &[]));
    assert!(repo_matches_one_claimed("nightly", &["".to_string()]));
}

#[test]
fn multibyte_text_is_compared_by_character() {
    assert!(sub_has_prefix("b\u{fc}ild/7", "b\u{fc}ild"));
    assert!(!sub_has_prefix("b\u{fc}ild7", "b\u{fc}ild"));
    assert!(id_matches_prefix("\u{65e5}\u{672c}.app", "\u{65e5}\u{672c}"));
}
