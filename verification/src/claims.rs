//! The identity and permissions that a verified token carries.

use crate::matchers::same_text;
use vstd::prelude::*;

verus! {

/// A capability that a token may grant.
#[derive(Clone, Copy, Debug, PartialEq, Eq, Structural)]
pub enum ClaimsScope {
    /// List all jobs in the system.
    Jobs,
    /// Create, list and purge builds, read a build's jobs, commit uploads.
    Build,
    /// Upload files and refs to builds.
    Upload,
    /// Publish builds.
    Publish,
    /// Upload deltas for a repository.
    Generate,
    /// List builds and download a build repository.
    Download,
    /// Republish an app.
    Republish,
    /// Change the status of build checks.
    ReviewCheck,
    /// Inspect and revoke tokens.
    TokenManagement,
    /// A scope this version does not know. It stands for nothing: no
    /// operation can ask for it by any concrete name.
    Unknown,
}

/// The lower-case name under which a scope travels in a token.
pub open spec fn scope_name(scope: ClaimsScope) -> Seq<char> {
    match scope {
        ClaimsScope::Jobs => "jobs"@,
        ClaimsScope::Build => "build"@,
        ClaimsScope::Upload => "upload"@,
        ClaimsScope::Publish => "publish"@,
        ClaimsScope::Generate => "generate"@,
        ClaimsScope::Download => "download"@,
        ClaimsScope::Republish => "republish"@,
        ClaimsScope::ReviewCheck => "reviewcheck"@,
        ClaimsScope::TokenManagement => "tokenmanagement"@,
        ClaimsScope::Unknown => "unknown"@,
    }
}

/// The scope that a name in a token stands for; every name that is not one
/// of the nine known ones stands for [`ClaimsScope::Unknown`].
pub open spec fn scope_named(name: Seq<char>) -> ClaimsScope {
    if name == "jobs"@ {
        ClaimsScope::Jobs
    } else if name == "build"@ {
        ClaimsScope::Build
    } else if name == "upload"@ {
        ClaimsScope::Upload
    } else if name == "publish"@ {
        ClaimsScope::Publish
    } else if name == "generate"@ {
        ClaimsScope::Generate
    } else if name == "download"@ {
        ClaimsScope::Download
    } else if name == "republish"@ {
        ClaimsScope::Republish
    } else if name == "reviewcheck"@ {
        ClaimsScope::ReviewCheck
    } else if name == "tokenmanagement"@ {
        ClaimsScope::TokenManagement
    } else {
        ClaimsScope::Unknown
    }
}

/// The model of [`Claims`]: every field as a mathematical value.
pub struct ClaimsView {
    pub name: Option<Seq<char>>,
    pub sub: Seq<char>,
    pub exp: int,
    pub jti: Option<Seq<char>>,
    pub scope: Seq<ClaimsScope>,
    pub prefixes: Seq<Seq<char>>,
    pub apps: Seq<Seq<char>>,
    pub repos: Seq<Seq<char>>,
    pub branches: Seq<Seq<char>>,
    pub token_type: Option<Seq<char>>,
}

/// The identity and permission bundle of one token.
#[derive(Debug)]
pub struct Claims {
    /// A label for people; it decides nothing.
    pub name: Option<String>,
    /// The subject path the token was issued for, such as `build` or
    /// `build/42`.
    pub sub: String,
    /// The instant the token expires, in seconds since the Unix epoch.
    pub exp: i64,
    /// The token's own identifier; a token without one cannot be revoked.
    pub jti: Option<String>,
    /// The granted scopes; order and repetition mean nothing.
    pub scope: Vec<ClaimsScope>,
    /// Dotted prefixes the token may act on. An empty list, or an empty
    /// entry, leaves identifiers unrestricted.
    pub prefixes: Vec<String>,
    /// Identifiers the token may act on by exact name.
    pub apps: Vec<String>,
    /// Repositories the token may act on; an empty entry admits all.
    pub repos: Vec<String>,
    /// Branches the token may act on; an empty entry admits all.
    pub branches: Vec<String>,
    /// A marker of the token's kind, such as `app`.
    pub token_type: Option<String>,
}

impl View for Claims {
    type V = ClaimsView;

    open spec fn view(&self) -> ClaimsView {
        ClaimsView {
            name: self.name.deep_view(),
            sub: self.sub@,
            exp: self.exp as int,
            jti: self.jti.deep_view(),
            scope: self.scope@,
            prefixes: self.prefixes.deep_view(),
            apps: self.apps.deep_view(),
            repos: self.repos.deep_view(),
            branches: self.branches.deep_view(),
            token_type: self.token_type.deep_view(),
        }
    }
}

impl Clone for Claims {
    fn clone(&self) -> (res: Self)
        ensures
            res@ == self@,
    {
        Claims {
            name: self.name.clone(),
            sub: self.sub.clone(),
            exp: self.exp,
            jti: self.jti.clone(),
            scope: self.scope.clone(),
            prefixes: self.prefixes.clone(),
            apps: self.apps.clone(),
            repos: self.repos.clone(),
            branches: self.branches.clone(),
            token_type: self.token_type.clone(),
        }
    }
}

impl ClaimsScope {
    /// The name under which the scope travels in a token.
    pub fn name(&self) -> (res: &'static str)
        ensures
            res@ == scope_name(*self),
    {
        match self {
            ClaimsScope::Jobs => "jobs",
            ClaimsScope::Build => "build",
            ClaimsScope::Upload => "upload",
            ClaimsScope::Publish => "publish",
            ClaimsScope::Generate => "generate",
            ClaimsScope::Download => "download",
            ClaimsScope::Republish => "republish",
            ClaimsScope::ReviewCheck => "reviewcheck",
            ClaimsScope::TokenManagement => "tokenmanagement",
            ClaimsScope::Unknown => "unknown",
        }
    }

    /// The scope that `name` stands for in a token. A name that is not
    /// known gives [`ClaimsScope::Unknown`].
    pub fn from_name(name: &str) -> (res: ClaimsScope)
        ensures
            res == scope_named(name@),
    {
        if same_text(name, "jobs") {
            ClaimsScope::Jobs
        } else if same_text(name, "build") {
            ClaimsScope::Build
        } else if same_text(name, "upload") {
            ClaimsScope::Upload
        } else if same_text(name, "publish") {
            ClaimsScope::Publish
        } else if same_text(name, "generate") {
            ClaimsScope::Generate
        } else if same_text(name, "download") {
            ClaimsScope::Download
        } else if same_text(name, "republish") {
            ClaimsScope::Republish
        } else if same_text(name, "reviewcheck") {
            ClaimsScope::ReviewCheck
        } else if same_text(name, "tokenmanagement") {
            ClaimsScope::TokenManagement
        } else {
            ClaimsScope::Unknown
        }
    }
}

/// A scope is read back from its own name: the ten names are distinct, and
/// the name of the unknown scope is not the name of a known one.
pub proof fn law_scope_name_round_trip(scope: ClaimsScope)
    ensures
        scope_named(scope_name(scope)) == scope,
{
    reveal_strlit("jobs");
    reveal_strlit("build");
    reveal_strlit("upload");
    reveal_strlit("publish");
    reveal_strlit("generate");
    reveal_strlit("download");
    reveal_strlit("republish");
    reveal_strlit("reviewcheck");
    reveal_strlit("tokenmanagement");
    reveal_strlit("unknown");
    assert("jobs"@.len() == 4 && "build"@.len() == 5 && "upload"@.len() == 6);
    assert("publish"@.len() == 7 && "generate"@.len() == 8 && "download"@.len() == 8);
    assert("republish"@.len() == 9 && "reviewcheck"@.len() == 11);
    assert("tokenmanagement"@.len() == 15 && "unknown"@.len() == 7);
    assert("publish"@[0] != "unknown"@[0]);
    assert("generate"@[0] != "download"@[0]);
}

} // verus!
