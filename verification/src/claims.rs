//! Reading the claims out of an OpenID Connect ID token: the second
//! dot-separated piece, base64url-decoded without padding, as UTF-8 text.

use vstd::prelude::*;
use vstd::utf8::{decode_utf8, valid_utf8};

use crate::external::{base64_url_no_pad_decoded, decode_base64_url_no_pad, string_from_utf8};
use crate::text::{
    contains_char, has_char, lemma_split_concat, lemma_split_no_sep, second_piece, split_on,
};

verus! {

/// Why the claims of an ID token could not be read.
#[derive(Debug, PartialEq, Eq, Structural)]
pub enum ClaimsError {
    /// The claims piece is not base64url without padding.
    InvalidBase64,
    /// The decoded claims are not UTF-8.
    InvalidUtf8,
}

/// The piece of an ID token that holds its claims: the second of its
/// dot-separated pieces.
pub open spec fn claims_piece(id_token: Seq<char>) -> Seq<char> {
    split_on(id_token, '.')[1]
}

/// Whether an ID token has a claims piece, that is, two or more
/// dot-separated pieces.
pub open spec fn has_claims_piece(id_token: Seq<char>) -> bool {
    split_on(id_token, '.').len() >= 2
}

/// What decoded bytes give as claims text: the text they encode, or
/// `InvalidUtf8` when they are no UTF-8.
pub open spec fn claims_text_of(bytes: Seq<u8>) -> Result<Seq<char>, ClaimsError> {
    if valid_utf8(bytes) {
        Ok(decode_utf8(bytes))
    } else {
        Err(ClaimsError::InvalidUtf8)
    }
}

/// What an ID token gives as claims text.
pub open spec fn claims_of(id_token: Seq<char>) -> Result<Seq<char>, ClaimsError> {
    match base64_url_no_pad_decoded(claims_piece(id_token)) {
        Some(bytes) => claims_text_of(bytes),
        None => Err(ClaimsError::InvalidBase64),
    }
}

/// A result of the library reporting the text `o` stands for.
pub open spec fn same_claims(r: Result<String, ClaimsError>, o: Result<Seq<char>, ClaimsError>) -> bool {
    match o {
        Ok(t) => r matches Ok(s) && s@ == t,
        Err(e) => r == Err::<String, ClaimsError>(e),
    }
}

/// Whether `id_token` has a claims piece to read.
pub fn has_claims(id_token: &str) -> (r: bool)
    ensures
        r == has_claims_piece(id_token@),
{
    contains_char(id_token, '.')
}

/// The claims piece of `id_token`, still encoded.
pub fn claims_segment(id_token: &str) -> (r: String)
    requires
        has_claims_piece(id_token@),
    ensures
        r@ == claims_piece(id_token@),
{
    second_piece(id_token, '.')
}

/// The claims text that decoded bytes hold.
pub fn claims_from_bytes(bytes: Vec<u8>) -> (r: Result<String, ClaimsError>)
    ensures
        same_claims(r, claims_text_of(bytes@)),
{
    match string_from_utf8(bytes) {
        Ok(s) => Ok(s),
        Err(_) => Err(ClaimsError::InvalidUtf8),
    }
}

/// The claims of an ID token, as JSON text.
pub fn decode_claims(id_token: &str) -> (r: Result<String, ClaimsError>)
    requires
        has_claims_piece(id_token@),
    ensures
        same_claims(r, claims_of(id_token@)),
{
    let piece = claims_segment(id_token);
    match decode_base64_url_no_pad(piece.as_str()) {
        Ok(bytes) => claims_from_bytes(bytes),
        Err(_) => Err(ClaimsError::InvalidBase64),
    }
}


/// The claims piece of a token `header.payload.rest` (or `header.payload`),
/// where header and payload hold no dot, is the payload, whatever the rest
/// holds; such a token has a claims piece.
pub proof fn law_claims_piece_is_payload(header: Seq<char>, payload: Seq<char>, rest: Option<Seq<char>>)
    requires
        !has_char(header, '.'),
        !has_char(payload, '.'),
    ensures
        ({
            let token = match rest {
                Some(r) => header + seq!['.'] + payload + seq!['.'] + r,
                None => header + seq!['.'] + payload,
            };
            has_claims_piece(token) && claims_piece(token) == payload
        }),
{
    lemma_split_no_sep(header, '.');
    lemma_split_no_sep(payload, '.');
    match rest {
        Some(r) => {
            lemma_split_concat(payload, r, '.');
            lemma_split_concat(header, payload + seq!['.'] + r, '.');
            assert(header + seq!['.'] + payload + seq!['.'] + r =~= header + seq!['.'] + (payload
                + seq!['.'] + r));
            crate::text::lemma_split_nonempty(r, '.');
        },
        None => {
            lemma_split_concat(header, payload, '.');
        },
    }
}

} // verus!
