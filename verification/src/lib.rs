//! Bearer-token authorization: the claims a token carries, the pipeline that
//! turns an `Authorization` header into verified claims, and the predicates
//! that decide whether those claims permit an operation.

pub mod claims;
pub mod codec;
pub mod engine;
pub mod error;
pub mod header;
pub mod matchers;
pub mod payload;
pub mod validator;

pub use claims::{Claims, ClaimsScope};
pub use engine::{Config, Decision, Inner, Step, TokenParser, TokenParserMiddleware};
pub use error::AuthError;
pub use header::{get_token, parse_authorization};
pub use matchers::{
    id_matches_one_prefix, id_matches_prefix, repo_matches_claimed, repo_matches_one_claimed,
    sub_has_prefix,
};
pub use validator::{Check, ClaimsValidator, RequestContext};
