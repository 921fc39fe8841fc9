//! Capability matchers: pure predicates over subject paths, dotted
//! identifiers and repository names.
//!
//! Subjects are `/`-separated paths and identifiers are `.`-separated names.
//! A claimed value covers a required one only at a segment boundary, so
//! `org.foo` covers `org.foo.bar` and never `org.foobar`.

use vstd::prelude::*;
use vstd::std_specs::iter::IteratorSpec;

verus! {

broadcast use vstd::string::group_string_axioms;

/// `text` is `stem` itself, or `stem` followed by `sep` and anything else.
pub open spec fn extends_at_boundary(text: Seq<char>, stem: Seq<char>, sep: char) -> bool {
    text == stem || (stem + seq![sep]).is_prefix_of(text)
}

/// What a required subject must look like to be covered by a claimed one.
pub open spec fn sub_covers(required: Seq<char>, claimed: Seq<char>) -> bool {
    extends_at_boundary(required, claimed, '/')
}

/// What an identifier must look like to fall under a prefix; the empty
/// prefix is a wildcard.
pub open spec fn prefix_covers(id: Seq<char>, prefix: Seq<char>) -> bool {
    prefix.len() == 0 || extends_at_boundary(id, prefix, '.')
}

/// A repository is covered by its own name or by the empty wildcard.
pub open spec fn repo_covers(repo: Seq<char>, claimed: Seq<char>) -> bool {
    claimed.len() == 0 || repo == claimed
}

/// Some entry of `prefixes` covers `id`.
pub open spec fn any_prefix_covers(id: Seq<char>, prefixes: Seq<Seq<char>>) -> bool {
    exists|i: int| 0 <= i < prefixes.len() && prefix_covers(id, #[trigger] prefixes[i])
}

/// Some entry of `claimed` covers `repo`.
pub open spec fn any_repo_covers(repo: Seq<char>, claimed: Seq<Seq<char>>) -> bool {
    exists|i: int| 0 <= i < claimed.len() && repo_covers(repo, #[trigger] claimed[i])
}

/// Some entry of `names` is exactly `name`.
pub open spec fn lists_name(names: Seq<Seq<char>>, name: Seq<char>) -> bool {
    exists|i: int| 0 <= i < names.len() && #[trigger] names[i] == name
}

/// How `text` relates to a candidate leading part `stem`.
pub enum Tail {
    /// `text` does not begin with `stem`.
    Mismatch,
    /// `text` is exactly `stem`.
    Exact,
    /// `text` begins with `stem` and goes on with this character.
    Continues(char),
}

/// The [`Tail`] of `text` after `stem`.
pub open spec fn tail_after(text: Seq<char>, stem: Seq<char>) -> Tail {
    if !stem.is_prefix_of(text) {
        Tail::Mismatch
    } else if text.len() == stem.len() {
        Tail::Exact
    } else {
        Tail::Continues(text[stem.len() as int])
    }
}

/// [`extends_at_boundary`] read off the [`Tail`]: `text` begins with all of
/// `stem`, and then either ends or continues with `sep`.
pub proof fn lemma_extends_at_boundary(text: Seq<char>, stem: Seq<char>, sep: char)
    ensures
        extends_at_boundary(text, stem, sep) <==> (tail_after(text, stem) == Tail::Exact
            || tail_after(text, stem) == Tail::Continues(sep)),
        text == stem <==> tail_after(text, stem) == Tail::Exact,
{
    let n = stem.len() as int;
    let marked = stem + seq![sep];
    if marked.is_prefix_of(text) {
        assert(text.subrange(0, n + 1) == marked);
        assert(stem =~= text.subrange(0, n)) by {
            assert forall|i: int| 0 <= i < n implies stem[i] == text.subrange(0, n)[i] by {
                assert(text.subrange(0, n + 1)[i] == marked[i]);
            }
        }
        assert(text.subrange(0, n + 1)[n] == marked[n]);
    }
    if stem.is_prefix_of(text) {
        if text.len() == n {
            assert(text =~= text.subrange(0, n));
        } else if text[n] == sep {
            assert(text.subrange(0, n + 1) =~= marked) by {
                assert forall|i: int| 0 <= i < n + 1 implies text.subrange(0, n + 1)[i]
                    == marked[i] by {
                    if i < n {
                        assert(text.subrange(0, n)[i] == stem[i]);
                    }
                }
            }
        }
    }
}

/// Walks the two strings together, once, and reports where `text` stands
/// relative to `stem`.
pub fn compare_stem(text: &str, stem: &str) -> (res: Tail)
    ensures
        res == tail_after(text@, stem@),
{
    let mut rest = text.chars();
    let mut want = stem.chars();
    let ghost mut k: int = 0;
    loop
        invariant
            0 <= k <= stem@.len(),
            k <= text@.len(),
            rest.remaining() == text@.skip(k),
            want.remaining() == stem@.skip(k),
            forall|i: int| 0 <= i < k ==> text@[i] == stem@[i],
        decreases stem@.len() - k,
    {
        match want.next() {
            None => {
                proof {
                    assert(stem@.skip(k).len() == 0);
                    assert(stem@ =~= text@.subrange(0, k));
                }
                return match rest.next() {
                    None => {
                        assert(text@.skip(k).len() == 0);
                        Tail::Exact
                    },
                    Some(c) => {
                        assert(c == text@.skip(k)[0]);
                        Tail::Continues(c)
                    },
                };
            },
            Some(w) => {
                match rest.next() {
                    None => {
                        assert(text@.skip(k).len() == 0);
                        return Tail::Mismatch;
                    },
                    Some(c) => {
                        assert(c == text@.skip(k)[0] && w == stem@.skip(k)[0]);
                        if c != w {
                            proof {
                                if stem@.is_prefix_of(text@) {
                                    assert(text@.subrange(0, stem@.len() as int)[k] == stem@[k]);
                                }
                            }
                            return Tail::Mismatch;
                        }
                        assert(text@.skip(k).drop_first() =~= text@.skip(k + 1));
                        assert(stem@.skip(k).drop_first() =~= stem@.skip(k + 1));
                    },
                }
            },
        }
        proof {
            k = k + 1;
        }
    }
}

/// Whether the two strings hold the same characters.
pub fn same_text(a: &str, b: &str) -> (res: bool)
    ensures
        res == (a@ == b@),
{
    proof {
        lemma_extends_at_boundary(a@, b@, '/');
    }
    match compare_stem(a, b) {
        Tail::Exact => true,
        _ => false,
    }
}

/// Path-prefix comparison of subjects: a claimed `build` covers `build`,
/// `build/7` and `build/7/jobs`, and does not cover `buildx`.
pub fn sub_has_prefix(required_sub: &str, claimed_sub: &str) -> (res: bool)
    ensures
        res == sub_covers(required_sub@, claimed_sub@),
{
    proof {
        lemma_extends_at_boundary(required_sub@, claimed_sub@, '/');
    }
    match compare_stem(required_sub, claimed_sub) {
        Tail::Exact => true,
        Tail::Continues(c) => c == '/',
        Tail::Mismatch => false,
    }
}

/// Dotted-prefix comparison of identifiers: the prefix `org.foo` covers
/// `org.foo` and `org.foo.bar`, and does not cover `org.foobar`. The empty
/// prefix covers everything.
pub fn id_matches_prefix(id: &str, prefix: &str) -> (res: bool)
    ensures
        res == prefix_covers(id@, prefix@),
{
    if prefix.is_empty() {
        return true;
    }
    proof {
        lemma_extends_at_boundary(id@, prefix@, '.');
    }
    match compare_stem(id, prefix) {
        Tail::Exact => true,
        Tail::Continues(c) => c == '.',
        Tail::Mismatch => false,
    }
}

/// Whether any of `prefixes` covers `id`.
pub fn id_matches_one_prefix(id: &str, prefixes: &[String]) -> (res: bool)
    ensures
        res == any_prefix_covers(id@, prefixes.deep_view()),
{
    let mut i: usize = 0;
    while i < prefixes.len()
        invariant
            i <= prefixes@.len(),
            prefixes.deep_view().len() == prefixes@.len(),
            forall|j: int| 0 <= j < i ==> !prefix_covers(id@, #[trigger] prefixes.deep_view()[j]),
        decreases prefixes@.len() - i,
    {
        assert(prefixes.deep_view()[i as int] == prefixes@[i as int]@);
        if id_matches_prefix(id, prefixes[i].as_str()) {
            return true;
        }
        i += 1;
    }
    false
}

/// Whether a claimed repository entry admits `repo`: the empty entry admits
/// every repository, any other entry only itself.
pub fn repo_matches_claimed(repo: &str, claimed_repo: &str) -> (res: bool)
    ensures
        res == repo_covers(repo@, claimed_repo@),
{
    if claimed_repo.is_empty() {
        return true;
    }
    same_text(repo, claimed_repo)
}

/// Whether any of `claimed_repos` admits `repo`.
pub fn repo_matches_one_claimed(repo: &str, claimed_repos: &[String]) -> (res: bool)
    ensures
        res == any_repo_covers(repo@, claimed_repos.deep_view()),
{
    let mut i: usize = 0;
    while i < claimed_repos.len()
        invariant
            i <= claimed_repos@.len(),
            claimed_repos.deep_view().len() == claimed_repos@.len(),
            forall|j: int|
                0 <= j < i ==> !repo_covers(repo@, #[trigger] claimed_repos.deep_view()[j]),
        decreases claimed_repos@.len() - i,
    {
        assert(claimed_repos.deep_view()[i as int] == claimed_repos@[i as int]@);
        if repo_matches_claimed(repo, claimed_repos[i].as_str()) {
            return true;
        }
        i += 1;
    }
    false
}

/// Whether `names` holds `name` itself; no prefix or wildcard applies.
pub fn name_is_listed(names: &[String], name: &str) -> (res: bool)
    ensures
        res == lists_name(names.deep_view(), name@),
{
    let mut i: usize = 0;
    while i < names.len()
        invariant
            i <= names@.len(),
            names.deep_view().len() == names@.len(),
            forall|j: int| 0 <= j < i ==> #[trigger] names.deep_view()[j] != name@,
        decreases names@.len() - i,
    {
        assert(names.deep_view()[i as int] == names@[i as int]@);
        if same_text(names[i].as_str(), name) {
            return true;
        }
        i += 1;
    }
    false
}

/// A subject is covered exactly when it equals the claimed subject or begins
/// with the claimed subject and a `/`.
pub proof fn law_sub_has_prefix(required: Seq<char>, claimed: Seq<char>)
    ensures
        sub_covers(required, claimed) <==> (required == claimed || (claimed + seq!['/']).is_prefix_of(
            required,
        )),
{
}

/// The empty prefix covers every identifier.
pub proof fn law_empty_prefix_covers_all(id: Seq<char>)
    ensures
        prefix_covers(id, Seq::<char>::empty()),
{
}

/// The empty repository entry admits every repository, and any other entry
/// admits exactly its own name.
pub proof fn law_repo_wildcard(repo: Seq<char>, claimed: Seq<char>)
    ensures
        repo_covers(repo, Seq::<char>::empty()),
        claimed.len() > 0 ==> (repo_covers(repo, claimed) <==> repo == claimed),
{
}

/// A covered subject shares the whole claimed path and meets a segment
/// boundary right after it, so a longer name in the last segment is never
/// covered.
pub proof fn law_sub_needs_boundary(required: Seq<char>, claimed: Seq<char>)
    requires
        sub_covers(required, claimed),
    ensures
        claimed.is_prefix_of(required),
        required.len() == claimed.len() || required[claimed.len() as int] == '/',
{
    lemma_extends_at_boundary(required, claimed, '/');
}

/// A covered identifier shares the whole prefix and meets a segment boundary
/// right after it, so a longer name in the same segment is never covered.
pub proof fn law_prefix_needs_boundary(id: Seq<char>, prefix: Seq<char>)
    requires
        prefix.len() > 0,
        prefix_covers(id, prefix),
    ensures
        prefix.is_prefix_of(id),
        id.len() == prefix.len() || id[prefix.len() as int] == '.',
{
    lemma_extends_at_boundary(id, prefix, '.');
}

} // verus!
