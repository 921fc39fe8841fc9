//! Reading the bearer token out of an `Authorization` header value.

use crate::error::AuthError;
use crate::matchers::{compare_stem, Tail};
use vstd::prelude::*;
use vstd::slice::{slice_subrange, slice_to_vec};
use vstd::string::StrSliceExecFns;
use vstd::utf8::{decode_utf8, is_ascii_chars, valid_utf8};

verus! {

/// The shortest header that can carry a token: `Bearer`, a space and one
/// more byte.
pub const MIN_HEADER_LEN: usize = 8;

/// The bytes a header value may hold to count as text: printable ASCII, the
/// space and the tab.
pub open spec fn is_visible_ascii(b: u8) -> bool {
    (32 <= b && b < 127) || b == 9
}

/// The scheme with the space that ends it: `Bearer `.
pub open spec fn bearer_scheme() -> Seq<u8> {
    seq![0x42u8, 0x65u8, 0x61u8, 0x72u8, 0x65u8, 0x72u8, 0x20u8]
}

/// ASCII bytes read as characters, one for one.
pub open spec fn ascii_text(bytes: Seq<u8>) -> Seq<char> {
    Seq::new(bytes.len(), |i: int| bytes[i] as char)
}

/// A header the codec accepts: long enough, text throughout, and opening
/// with the `Bearer` scheme and one space.
pub open spec fn well_formed_header(header: Seq<u8>) -> bool {
    &&& header.len() >= MIN_HEADER_LEN
    &&& forall|i: int| 0 <= i < header.len() ==> is_visible_ascii(#[trigger] header[i])
    &&& header.take(7) == bearer_scheme()
}

/// The token as presented: all that follows the scheme and its space.
pub open spec fn presented_token(header: Seq<u8>) -> Seq<char> {
    ascii_text(header.skip(7))
}

/// `token` with the configured literal prefix taken off, where it begins
/// with one; unchanged otherwise.
pub open spec fn without_prefix(token: Seq<char>, prefix: Option<Seq<char>>) -> Seq<char> {
    match prefix {
        Some(p) => if p.is_prefix_of(token) {
            token.skip(p.len() as int)
        } else {
            token
        },
        None => token,
    }
}

/// What [`parse_authorization`] returns.
pub open spec fn parsed_authorization(prefix: Option<Seq<char>>, header: Seq<u8>) -> Result<
    Seq<char>,
    AuthError,
> {
    if well_formed_header(header) {
        Ok(without_prefix(presented_token(header), prefix))
    } else {
        Err(AuthError::MalformedHeader)
    }
}

/// The bytes of a header value that may be absent.
pub open spec fn header_bytes(header: Option<&[u8]>) -> Option<Seq<u8>> {
    match header {
        Some(h) => Some(h@),
        None => None,
    }
}

/// What [`get_token`] returns.
pub open spec fn requested_token(
    optional: bool,
    prefix: Option<Seq<char>>,
    header: Option<Seq<u8>>,
) -> Result<Option<Seq<char>>, AuthError> {
    match header {
        None => if optional {
            Ok(None)
        } else {
            Err(AuthError::MissingHeader)
        },
        Some(h) => match parsed_authorization(prefix, h) {
            Ok(t) => Ok(Some(t)),
            Err(e) => Err(e),
        },
    }
}

/// ASCII bytes are valid UTF-8 and decode to the same characters.
pub proof fn lemma_ascii_decodes(bytes: Seq<u8>)
    requires
        forall|i: int| 0 <= i < bytes.len() ==> #[trigger] bytes[i] < 128,
    ensures
        valid_utf8(bytes),
        decode_utf8(bytes) == ascii_text(bytes),
{
    let chars = ascii_text(bytes);
    assert(is_ascii_chars(chars)) by {
        assert forall|i: int| 0 <= i < chars.len() implies 0 <= #[trigger] (chars[i] as nat)
            < 128 by {
            assert(bytes[i] < 128);
        }
    }
    vstd::utf8::is_ascii_chars_encode_utf8(chars);
    assert(vstd::utf8::encode_utf8(chars) =~= bytes) by {
        assert forall|i: int| 0 <= i < bytes.len() implies (chars[i] as u8) == bytes[i] by {
            assert(bytes[i] < 128);
        }
    }
    vstd::utf8::encode_utf8_valid_utf8(chars);
    vstd::utf8::encode_utf8_decode_utf8(chars);
}

/// `String::from_utf8` of the standard library: the bytes become a string
/// exactly when they are valid UTF-8, and the string then holds the
/// characters they encode.
#[verifier::external_body]
fn string_from_utf8(bytes: Vec<u8>) -> (res: Option<String>)
    ensures
        res is Some <==> valid_utf8(bytes@),
        res matches Some(s) ==> s@ == decode_utf8(bytes@),
{
    String::from_utf8(bytes).ok()
}

/// The string that holds the given ASCII bytes as characters.
fn text_of_ascii(bytes: &[u8]) -> (res: String)
    requires
        forall|i: int| 0 <= i < bytes@.len() ==> #[trigger] bytes@[i] < 128,
    ensures
        res@ == ascii_text(bytes@),
{
    proof {
        lemma_ascii_decodes(bytes@);
    }
    match string_from_utf8(slice_to_vec(bytes)) {
        Some(s) => s,
        None => String::new(),
    }
}

/// Whether every byte of `header` is text.
fn is_text(header: &[u8]) -> (res: bool)
    ensures
        res == forall|i: int| 0 <= i < header@.len() ==> is_visible_ascii(#[trigger] header@[i]),
{
    let mut i: usize = 0;
    while i < header.len()
        invariant
            i <= header@.len(),
            forall|j: int| 0 <= j < i ==> is_visible_ascii(#[trigger] header@[j]),
        decreases header@.len() - i,
    {
        let b = header[i];
        if !((32 <= b && b < 127) || b == 9) {
            return false;
        }
        i += 1;
    }
    true
}

/// Whether `header`, of at least seven bytes, opens with `Bearer` and a
/// space.
fn has_bearer_scheme(header: &[u8]) -> (res: bool)
    requires
        header@.len() >= 7,
    ensures
        res == (header@.take(7) == bearer_scheme()),
{
    let res = header[0] == 0x42 && header[1] == 0x65 && header[2] == 0x61 && header[3] == 0x72
        && header[4] == 0x65 && header[5] == 0x72 && header[6] == 0x20;
    proof {
        let head = header@.take(7);
        if res {
            assert(head =~= bearer_scheme());
        } else {
            assert(head[0] == header@[0] && head[1] == header@[1] && head[2] == header@[2]
                && head[3] == header@[3] && head[4] == header@[4] && head[5] == header@[5]
                && head[6] == header@[6]);
        }
    }
    res
}

/// Reads the token out of an `Authorization` header value.
///
/// The value must be at least [`MIN_HEADER_LEN`] bytes of text that open
/// with `Bearer` and one space; everything after that space is the token.
/// Where a literal prefix is configured and the token begins with it, the
/// prefix is taken off; otherwise the token is passed through unchanged.
pub fn parse_authorization(prefix: Option<String>, header: &[u8]) -> (res: Result<
    String,
    AuthError,
>)
    ensures
        match res {
            Ok(token) => parsed_authorization(prefix.deep_view(), header@) == Ok::<
                Seq<char>,
                AuthError,
            >(token@),
            Err(e) => parsed_authorization(prefix.deep_view(), header@) == Err::<
                Seq<char>,
                AuthError,
            >(e),
        },
{
    if header.len() < MIN_HEADER_LEN {
        return Err(AuthError::MalformedHeader);
    }
    if !is_text(header) {
        return Err(AuthError::MalformedHeader);
    }
    if !has_bearer_scheme(header) {
        return Err(AuthError::MalformedHeader);
    }
    let raw = slice_subrange(header, 7, header.len());
    assert(raw@ =~= header@.skip(7));
    assert forall|i: int| 0 <= i < raw@.len() implies #[trigger] raw@[i] < 128 by {
        assert(is_visible_ascii(header@[i + 7]));
    }
    let token = text_of_ascii(raw);
    match &prefix {
        None => Ok(token),
        Some(p) => {
            match compare_stem(token.as_str(), p.as_str()) {
                Tail::Mismatch => Ok(token),
                _ => {
                    let skip = p.as_str().unicode_len();
                    let rest = slice_subrange(header, 7 + skip, header.len());
                    assert(rest@ =~= header@.skip(7).skip(skip as int));
                    assert forall|i: int| 0 <= i < rest@.len() implies #[trigger] rest@[i]
                        < 128 by {
                        assert(is_visible_ascii(header@[i + 7 + skip]));
                    }
                    let stripped = text_of_ascii(rest);
                    assert(stripped@ =~= token@.skip(skip as int));
                    Ok(stripped)
                },
            }
        },
    }
}

/// The token a request presents, if any.
///
/// A request without the header is let through with no token where tokens
/// are optional, and refused where they are required. A header that is
/// present must parse.
pub fn get_token(optional: bool, prefix: Option<String>, header: Option<&[u8]>) -> (res: Result<
    Option<String>,
    AuthError,
>)
    ensures
        match res {
            Ok(token) => requested_token(optional, prefix.deep_view(), header_bytes(header)) == Ok::<
                Option<Seq<char>>,
                AuthError,
            >(token.deep_view()),
            Err(e) => requested_token(optional, prefix.deep_view(), header_bytes(header)) == Err::<
                Option<Seq<char>>,
                AuthError,
            >(e),
        },
{
    let header = match header {
        Some(h) => h,
        None => {
            if optional {
                return Ok(None);
            }
            return Err(AuthError::MissingHeader);
        },
    };
    match parse_authorization(prefix, header) {
        Ok(token) => Ok(Some(token)),
        Err(e) => Err(e),
    }
}

/// Without the header, a parser for which tokens are optional yields no
/// token and no error, and one for which they are required yields
/// [`AuthError::MissingHeader`].
pub proof fn law_absent_header(optional: bool, prefix: Option<Seq<char>>)
    ensures
        optional ==> requested_token(optional, prefix, None) == Ok::<
            Option<Seq<char>>,
            AuthError,
        >(None),
        !optional ==> requested_token(optional, prefix, None) == Err::<
            Option<Seq<char>>,
            AuthError,
        >(AuthError::MissingHeader),
{
}

} // verus!
