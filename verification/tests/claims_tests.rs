use main_app::claims::{claims_from_bytes, claims_segment, decode_claims, has_claims, ClaimsError};
use main_app::text::{contains_char, second_piece};

#[test]
fn decode_claims_reads_the_middle_piece() {
    let token = "header.eyJzdWIiOiIxIiwibmFtZSI6IkFubiJ9.signature";
    assert_eq!(decode_claims(token), Ok("{\"sub\":\"1\",\"name\":\"Ann\"}".to_string()));
}

#[test]
fn decode_claims_handles_non_ascii_text() {
    let token = "h.eyJuYW1lIjoiWm_DqyJ9.s";
    assert_eq!(decode_claims(token), Ok("{\"name\":\"Zoë\"}".to_string()));
}

#[test]
fn decode_claims_rejects_bad_base64() {
    assert_eq!(decode_claims("h.!!!.s"), Err(ClaimsError::InvalidBase64));
    assert_eq!(decode_claims("h.eyJ9=.s"), Err(ClaimsError::InvalidBase64));
}

#[test]
fn decode_claims_rejects_bytes_that_are_not_utf8() {
    assert_eq!(decode_claims("h.__4.s"), Err(ClaimsError::InvalidUtf8));
    assert_eq!(claims_from_bytes(vec![0xff, 0xfe]), Err(ClaimsError::InvalidUtf8));
    assert_eq!(claims_from_bytes(vec![b'{', b'}']), Ok("{}".to_string()));
}

#[test]
fn claims_piece_is_the_second_split_piece() {
    assert!(!has_claims("no-dots-here"));
    assert!(has_claims("a.b"));
    assert_eq!(claims_segment("a.b"), "b");
    assert_eq!(claims_segment("a..c"), "");
    assert_eq!(claims_segment(".x.y.z"), "x");
    assert_eq!(claims_segment("a.bé"), "bé");
}

#[test]
fn split_helpers() {
    assert!(contains_char("x.y", '.'));
    assert!(!contains_char("", '.'));
    assert_eq!(second_piece("1,2,3", ','), "2");
}
