//! The decoded payload of a token, and the reading of claims out of it.
//!
//! A payload is a list of named members. The claims are carried by ten of
//! them, under exact, case-sensitive names; members under other names are
//! ignored.

use crate::claims::{
    law_scope_name_round_trip, scope_name, scope_named, Claims, ClaimsScope, ClaimsView,
};
use crate::matchers::same_text;
use vstd::prelude::*;

verus! {

/// One element of a list in a payload.
#[derive(Debug)]
pub enum Item {
    /// A string.
    Text(String),
    /// Anything that is not a string.
    Other,
}

/// The value of one member of a payload.
#[derive(Debug)]
pub enum Field {
    /// The null value.
    Null,
    /// A number, with its value where it is whole and fits in 64 signed
    /// bits.
    Number(Option<i64>),
    /// A string.
    Text(String),
    /// A list.
    List(Vec<Item>),
    /// Anything else: a truth value, an object.
    Other,
}

/// A named member of a payload.
#[derive(Debug)]
pub struct Member {
    pub name: String,
    pub value: Field,
}

/// The members of a token's payload.
#[derive(Debug)]
pub struct Payload {
    pub members: Vec<Member>,
}

/// The model of [`Item`].
pub enum ItemView {
    Text(Seq<char>),
    Other,
}

/// The model of [`Field`].
pub enum FieldView {
    Null,
    Number(Option<int>),
    Text(Seq<char>),
    List(Seq<ItemView>),
    Other,
}

/// The model of [`Member`].
pub struct MemberView {
    pub name: Seq<char>,
    pub value: FieldView,
}

impl View for Item {
    type V = ItemView;

    open spec fn view(&self) -> ItemView {
        match self {
            Item::Text(s) => ItemView::Text(s@),
            Item::Other => ItemView::Other,
        }
    }
}

/// The models of the items of a list, in order.
pub open spec fn item_views(items: Seq<Item>) -> Seq<ItemView> {
    Seq::new(items.len(), |i: int| items[i]@)
}

impl View for Field {
    type V = FieldView;

    open spec fn view(&self) -> FieldView {
        match self {
            Field::Null => FieldView::Null,
            Field::Number(Some(n)) => FieldView::Number(Some(*n as int)),
            Field::Number(None) => FieldView::Number(None),
            Field::Text(s) => FieldView::Text(s@),
            Field::List(items) => FieldView::List(item_views(items@)),
            Field::Other => FieldView::Other,
        }
    }
}

impl View for Member {
    type V = MemberView;

    open spec fn view(&self) -> MemberView {
        MemberView { name: self.name@, value: self.value@ }
    }
}

/// The models of the members of a payload, in order.
pub open spec fn member_views(members: Seq<Member>) -> Seq<MemberView> {
    Seq::new(members.len(), |i: int| members[i]@)
}

impl View for Payload {
    type V = Seq<MemberView>;

    open spec fn view(&self) -> Seq<MemberView> {
        member_views(self.members@)
    }
}

/// The value of the first member called `name`, if there is one.
pub open spec fn member_value(members: Seq<MemberView>, name: Seq<char>) -> Option<FieldView>
    decreases members.len(),
{
    if members.len() == 0 {
        None
    } else if members[0].name == name {
        Some(members[0].value)
    } else {
        member_value(members.drop_first(), name)
    }
}

/// A member that must be a string.
pub open spec fn required_text(field: Option<FieldView>) -> Option<Seq<char>> {
    match field {
        Some(FieldView::Text(s)) => Some(s),
        _ => None,
    }
}

/// A member that must be a whole number within 64 signed bits.
pub open spec fn required_integer(field: Option<FieldView>) -> Option<int> {
    match field {
        Some(FieldView::Number(Some(n))) => Some(n),
        _ => None,
    }
}

/// A member that may be missing or null, and otherwise must be a string.
/// The outer `None` says that the member is unacceptable.
pub open spec fn optional_text(field: Option<FieldView>) -> Option<Option<Seq<char>>> {
    match field {
        None => Some(None),
        Some(FieldView::Null) => Some(None),
        Some(FieldView::Text(s)) => Some(Some(s)),
        _ => None,
    }
}

/// Whether every item is a string.
pub open spec fn all_text(items: Seq<ItemView>) -> bool {
    forall|i: int| 0 <= i < items.len() ==> #[trigger] items[i] is Text
}

/// The strings of a list whose items are all strings.
pub open spec fn item_texts(items: Seq<ItemView>) -> Seq<Seq<char>> {
    Seq::new(items.len(), |i: int| items[i]->Text_0)
}

/// A member that may be missing, which stands for the empty list, and
/// otherwise must be a list of strings.
pub open spec fn text_list(field: Option<FieldView>) -> Option<Seq<Seq<char>>> {
    match field {
        None => Some(Seq::empty()),
        Some(FieldView::List(items)) => if all_text(items) {
            Some(item_texts(items))
        } else {
            None
        },
        _ => None,
    }
}

/// The scopes that a list of names stands for, one for one.
pub open spec fn scopes_named(names: Seq<Seq<char>>) -> Seq<ClaimsScope> {
    Seq::new(names.len(), |i: int| scope_named(names[i]))
}

/// A member that may be missing, which grants nothing, and otherwise must
/// be a list of scope names.
pub open spec fn scope_list(field: Option<FieldView>) -> Option<Seq<ClaimsScope>> {
    match text_list(field) {
        Some(names) => Some(scopes_named(names)),
        None => None,
    }
}

/// The claims that a payload carries, or `None` where it carries none: a
/// required member is missing, or a member has the wrong shape.
///
/// `sub` and `exp` are required. `name`, `jti` and `token_type` may be
/// missing or null. `scope`, `prefixes`, `apps`, `repos` and `branches` may
/// be missing, and are then empty.
pub open spec fn claims_of_payload(members: Seq<MemberView>) -> Option<ClaimsView> {
    let name = optional_text(member_value(members, "name"@));
    let sub = required_text(member_value(members, "sub"@));
    let exp = required_integer(member_value(members, "exp"@));
    let jti = optional_text(member_value(members, "jti"@));
    let scope = scope_list(member_value(members, "scope"@));
    let prefixes = text_list(member_value(members, "prefixes"@));
    let apps = text_list(member_value(members, "apps"@));
    let repos = text_list(member_value(members, "repos"@));
    let branches = text_list(member_value(members, "branches"@));
    let token_type = optional_text(member_value(members, "token_type"@));
    if name is Some && sub is Some && exp is Some && jti is Some && scope is Some
        && prefixes is Some && apps is Some && repos is Some && branches is Some
        && token_type is Some {
        Some(
            ClaimsView {
                name: name->0,
                sub: sub->0,
                exp: exp->0,
                jti: jti->0,
                scope: scope->0,
                prefixes: prefixes->0,
                apps: apps->0,
                repos: repos->0,
                branches: branches->0,
                token_type: token_type->0,
            },
        )
    } else {
        None
    }
}

impl Payload {
    /// The value of the first member called `name`.
    pub fn get(&self, name: &str) -> (res: Option<&Field>)
        ensures
            match res {
                Some(field) => member_value(self@, name@) == Some(field@),
                None => member_value(self@, name@) is None,
            },
    {
        let mut i: usize = 0;
        assert(self@.skip(0) =~= self@);
        while i < self.members.len()
            invariant
                i <= self.members@.len(),
                member_value(self@, name@) == member_value(self@.skip(i as int), name@),
            decreases self.members@.len() - i,
        {
            let member = &self.members[i];
            proof {
                let rest = self@.skip(i as int);
                assert(rest[0] == member@);
                assert(rest.drop_first() =~= self@.skip(i + 1));
            }
            if same_text(member.name.as_str(), name) {
                return Some(&member.value);
            }
            i += 1;
        }
        None
    }
}

/// Reads a member that must be a string.
fn read_required_text(field: Option<&Field>) -> (res: Option<String>)
    ensures
        res.deep_view() == required_text(field_view(field)),
{
    match field {
        Some(Field::Text(s)) => Some(s.clone()),
        _ => None,
    }
}

/// Reads a member that must be a whole number.
fn read_required_integer(field: Option<&Field>) -> (res: Option<i64>)
    ensures
        match res {
            Some(n) => required_integer(field_view(field)) == Some(n as int),
            None => required_integer(field_view(field)) is None,
        },
{
    match field {
        Some(Field::Number(Some(n))) => Some(*n),
        _ => None,
    }
}

/// Reads a member that may be missing or null.
fn read_optional_text(field: Option<&Field>) -> (res: Option<Option<String>>)
    ensures
        res.deep_view() == optional_text(field_view(field)),
{
    match field {
        None => Some(None),
        Some(Field::Null) => Some(None),
        Some(Field::Text(s)) => Some(Some(s.clone())),
        _ => None,
    }
}

/// Reads a member that may be missing and otherwise lists strings.
fn read_text_list(field: Option<&Field>) -> (res: Option<Vec<String>>)
    ensures
        res.deep_view() == text_list(field_view(field)),
{
    match field {
        None => {
            let out: Vec<String> = Vec::new();
            assert(out.deep_view() =~= Seq::<Seq<char>>::empty());
            Some(out)
        },
        Some(Field::List(items)) => {
            let ghost views = item_views(items@);
            let mut out: Vec<String> = Vec::new();
            let mut i: usize = 0;
            while i < items.len()
                invariant
                    i <= items@.len(),
                    views == item_views(items@),
                    field_view(field) == Some(FieldView::List(views)),
                    out@.len() == i,
                    forall|j: int| 0 <= j < i ==> #[trigger] views[j] is Text,
                    forall|j: int| 0 <= j < i ==> (#[trigger] out@[j])@ == views[j]->Text_0,
                decreases items@.len() - i,
            {
                match &items[i] {
                    Item::Text(s) => {
                        assert(views[i as int] == items@[i as int]@);
                        out.push(s.clone());
                    },
                    Item::Other => {
                        assert(views[i as int] == items@[i as int]@);
                        assert(!all_text(views));
                        return None;
                    },
                }
                i += 1;
            }
            assert(out.deep_view() =~= item_texts(views));
            Some(out)
        },
        _ => None,
    }
}

/// Reads a member that may be missing and otherwise lists scope names.
fn read_scope_list(field: Option<&Field>) -> (res: Option<Vec<ClaimsScope>>)
    ensures
        match res {
            Some(scopes) => scope_list(field_view(field)) == Some(scopes@),
            None => scope_list(field_view(field)) is None,
        },
{
    match read_text_list(field) {
        None => None,
        Some(names) => {
            let mut out: Vec<ClaimsScope> = Vec::new();
            let mut i: usize = 0;
            while i < names.len()
                invariant
                    i <= names@.len(),
                    out@.len() == i,
                    forall|j: int| 0 <= j < i ==> #[trigger] out@[j] == scope_named(names@[j]@),
                decreases names@.len() - i,
            {
                out.push(ClaimsScope::from_name(names[i].as_str()));
                i += 1;
            }
            assert(out@ =~= scopes_named(names.deep_view()));
            Some(out)
        },
    }
}

/// The model of a member that may be missing.
pub open spec fn field_view(field: Option<&Field>) -> Option<FieldView> {
    match field {
        Some(f) => Some(f@),
        None => None,
    }
}

/// Reads the claims out of a payload.
///
/// Returns `None` where `sub` or `exp` is missing or any of the ten members
/// has the wrong shape. A scope name that is not known is kept as
/// [`ClaimsScope::Unknown`] and does not fail the reading.
pub fn claims_from_payload(payload: &Payload) -> (res: Option<Claims>)
    ensures
        match res {
            Some(claims) => claims_of_payload(payload@) == Some(claims@),
            None => claims_of_payload(payload@) is None,
        },
{
    let name = read_optional_text(payload.get("name"));
    let sub = read_required_text(payload.get("sub"));
    let exp = read_required_integer(payload.get("exp"));
    let jti = read_optional_text(payload.get("jti"));
    let scope = read_scope_list(payload.get("scope"));
    let prefixes = read_text_list(payload.get("prefixes"));
    let apps = read_text_list(payload.get("apps"));
    let repos = read_text_list(payload.get("repos"));
    let branches = read_text_list(payload.get("branches"));
    let token_type = read_optional_text(payload.get("token_type"));
    match (name, sub, exp, jti, scope, prefixes, apps, repos, branches, token_type) {
        (
            Some(name),
            Some(sub),
            Some(exp),
            Some(jti),
            Some(scope),
            Some(prefixes),
            Some(apps),
            Some(repos),
            Some(branches),
            Some(token_type),
        ) => Some(
            Claims { name, sub, exp, jti, scope, prefixes, apps, repos, branches, token_type },
        ),
        _ => None,
    }
}

/// A list of strings as it travels in a payload.
pub open spec fn wire_texts(texts: Seq<Seq<char>>) -> FieldView {
    FieldView::List(Seq::new(texts.len(), |i: int| ItemView::Text(texts[i])))
}

/// A string that may be missing as it travels in a payload: null stands for
/// the missing one.
pub open spec fn wire_optional_text(text: Option<Seq<char>>) -> FieldView {
    match text {
        Some(t) => FieldView::Text(t),
        None => FieldView::Null,
    }
}

/// The payload that carries `claims`: all ten members, under their names.
pub open spec fn wire_members(claims: ClaimsView) -> Seq<MemberView> {
    seq![
        MemberView { name: "name"@, value: wire_optional_text(claims.name) },
        MemberView { name: "sub"@, value: FieldView::Text(claims.sub) },
        MemberView { name: "exp"@, value: FieldView::Number(Some(claims.exp)) },
        MemberView { name: "jti"@, value: wire_optional_text(claims.jti) },
        MemberView {
            name: "scope"@,
            value: wire_texts(Seq::new(claims.scope.len(), |i: int| scope_name(claims.scope[i]))),
        },
        MemberView { name: "prefixes"@, value: wire_texts(claims.prefixes) },
        MemberView { name: "apps"@, value: wire_texts(claims.apps) },
        MemberView { name: "repos"@, value: wire_texts(claims.repos) },
        MemberView { name: "branches"@, value: wire_texts(claims.branches) },
        MemberView { name: "token_type"@, value: wire_optional_text(claims.token_type) },
    ]
}

/// A list of strings is read back as it was written.
pub proof fn lemma_wire_texts_round_trip(texts: Seq<Seq<char>>)
    ensures
        text_list(Some(wire_texts(texts))) == Some(texts),
{
    let items = Seq::new(texts.len(), |i: int| ItemView::Text(texts[i]));
    assert(all_text(items));
    assert(item_texts(items) =~= texts);
}

/// The member at position `at` is found under its name where no earlier
/// member has that name.
pub proof fn lemma_member_found(members: Seq<MemberView>, at: int)
    requires
        0 <= at < members.len(),
        forall|i: int| 0 <= i < at ==> (#[trigger] members[i]).name != members[at].name,
    ensures
        member_value(members, members[at].name) == Some(members[at].value),
    decreases at,
{
    if at > 0 {
        let rest = members.drop_first();
        assert(rest[at - 1] == members[at]);
        assert forall|i: int| 0 <= i < at - 1 implies (#[trigger] rest[i]).name != rest[at
            - 1].name by {
            assert(rest[i] == members[i + 1]);
        }
        lemma_member_found(rest, at - 1);
    }
}

/// Reading the payload that carries some claims gives those claims back,
/// field for field.
pub proof fn law_wire_round_trip(claims: ClaimsView)
    ensures
        claims_of_payload(wire_members(claims)) == Some(claims),
{
    let members = wire_members(claims);
    reveal_strlit("name");
    reveal_strlit("sub");
    reveal_strlit("exp");
    reveal_strlit("jti");
    reveal_strlit("scope");
    reveal_strlit("prefixes");
    reveal_strlit("apps");
    reveal_strlit("repos");
    reveal_strlit("branches");
    reveal_strlit("token_type");
    assert("name"@[0] == 'n' && "sub"@[0] == 's' && "exp"@[0] == 'e' && "jti"@[0] == 'j');
    assert("scope"@[0] == 's' && "prefixes"@[0] == 'p' && "apps"@[0] == 'a');
    assert("repos"@[0] == 'r' && "branches"@[0] == 'b' && "token_type"@[0] == 't');
    assert("sub"@.len() == 3 && "scope"@.len() == 5);
    lemma_member_found(members, 0);
    lemma_member_found(members, 1);
    lemma_member_found(members, 2);
    lemma_member_found(members, 3);
    lemma_member_found(members, 4);
    lemma_member_found(members, 5);
    lemma_member_found(members, 6);
    lemma_member_found(members, 7);
    lemma_member_found(members, 8);
    lemma_member_found(members, 9);
    let names = Seq::new(claims.scope.len(), |i: int| scope_name(claims.scope[i]));
    lemma_wire_texts_round_trip(names);
    lemma_wire_texts_round_trip(claims.prefixes);
    lemma_wire_texts_round_trip(claims.apps);
    lemma_wire_texts_round_trip(claims.repos);
    lemma_wire_texts_round_trip(claims.branches);
    assert(scopes_named(names) =~= claims.scope) by {
        assert forall|i: int| 0 <= i < claims.scope.len() implies scopes_named(names)[i]
            == claims.scope[i] by {
            law_scope_name_round_trip(claims.scope[i]);
        }
    }
}

} // verus!
