//! The outside items the library relies on, with the contracts it assumes
//! of them.

use base64::Engine;
use vstd::prelude::*;
use vstd::utf8::{decode_utf8, valid_utf8};

verus! {

/// `serde_json::Value`, a JSON value carried through unread.
#[verifier::external_type_specification]
#[verifier::external_body]
pub struct ExJsonValue(serde_json::Value);

/// Query pairs, each name and value taken by its view.
pub open spec fn pairs_view(v: Seq<(String, String)>) -> Seq<(Seq<char>, Seq<char>)> {
    v.map_values(|p: (String, String)| (p.0@, p.1@))
}

/// What `url::Url::parse_with_params(input, params)` gives: the serialized
/// URL (the parsed `input` with `params` form-urlencoded and appended to its
/// query, after what query it had), or the displayed parse error.
pub uninterp spec fn url_with_params(
    input: Seq<char>,
    params: Seq<(Seq<char>, Seq<char>)>,
) -> Result<Seq<char>, Seq<char>>;

/// Calls `url::Url::parse_with_params` and hands back the URL's
/// serialization, or the error's display text. Assumed: both are the named
/// result `url_with_params` of the input and the pairs; nothing more is
/// stated of URL parsing or query encoding.
#[verifier::external_body]
pub(crate) fn parse_url_with_params(input: &str, params: &Vec<(String, String)>) -> (r: Result<
    String,
    String,
>)
    ensures
        match r {
            Ok(s) => url_with_params(input@, pairs_view(params@)) == Ok::<Seq<char>, Seq<char>>(
                s@,
            ),
            Err(m) => url_with_params(input@, pairs_view(params@)) == Err::<Seq<char>, Seq<char>>(
                m@,
            ),
        },
{
    match url::Url::parse_with_params(input, params.iter()) {
        Ok(u) => Ok(u.to_string()),
        Err(e) => Err(e.to_string()),
    }
}


/// `base64::DecodeError`, why a base64 text failed to decode.
#[verifier::external_type_specification]
#[verifier::external_body]
pub struct ExBase64DecodeError(base64::DecodeError);

/// What decoding `input` with base64's URL-safe alphabet and no padding
/// (`base64::engine::general_purpose::URL_SAFE_NO_PAD`) gives: the bytes, or
/// `None` where the text is no such encoding.
pub uninterp spec fn base64_url_no_pad_decoded(input: Seq<char>) -> Option<Seq<u8>>;

/// Calls `Engine::decode` of `base64::engine::general_purpose::URL_SAFE_NO_PAD`.
/// Assumed: it succeeds exactly where the named result
/// `base64_url_no_pad_decoded` of the text is some bytes, and gives those
/// bytes; nothing is stated of which error comes on failure.
#[verifier::external_body]
pub(crate) fn decode_base64_url_no_pad(input: &str) -> (r: Result<Vec<u8>, base64::DecodeError>)
    ensures
        r is Ok <==> base64_url_no_pad_decoded(input@) is Some,
        r matches Ok(bytes) ==> base64_url_no_pad_decoded(input@) == Some(bytes@),
{
    base64::engine::general_purpose::URL_SAFE_NO_PAD.decode(input)
}

/// `std::string::FromUtf8Error`, bytes that were not UTF-8.
#[verifier::external_type_specification]
#[verifier::external_body]
pub struct ExFromUtf8Error(std::string::FromUtf8Error);

/// Calls `String::from_utf8`. Assumed, as its documentation says: it
/// succeeds exactly when the bytes are valid UTF-8, and the string then
/// holds the characters they encode.
#[verifier::external_body]
pub(crate) fn string_from_utf8(bytes: Vec<u8>) -> (r: Result<String, std::string::FromUtf8Error>)
    ensures
        r is Ok <==> valid_utf8(bytes@),
        r matches Ok(s) ==> s@ == decode_utf8(bytes@),
{
    String::from_utf8(bytes)
}

} // verus!
