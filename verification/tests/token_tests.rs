use barterup_be::encoding::{decode_segment, decode_standard};
use barterup_be::ids::Uuid;
use barterup_be::json::Json;
use barterup_be::token::{
    extract_user_id_from_jwt, user_from_claims, user_from_payload, AuthRejection,
    AuthenticatedUser, AuthorizationHeader, TokenFault,
};
use base64::engine::general_purpose::{STANDARD, URL_SAFE_NO_PAD};
use base64::Engine;

const ID: &str = "550e8400-e29b-41d4-a716-446655440000";

fn id() -> Uuid {
    Uuid { value: 0x550e8400_e29b_41d4_a716_446655440000 }
}

fn segment(payload: &str) -> String {
    URL_SAFE_NO_PAD.encode(payload)
}

fn claims() -> String {
    format!(r#"{{"sub":"{}"}}"#, ID)
}

#[test]
fn sub_is_believed_whatever_the_signature() {
    let payload = segment(&claims());
    for (header, signature) in [("h", "s"), ("", ""), ("eyJhbGciOiJIUzI1NiJ9", "forged"), ("!!", "???")] {
        let token = format!("{}.{}.{}", header, payload, signature);
        assert_eq!(extract_user_id_from_jwt(&token), Ok(id()));
    }
}

#[test]
fn other_claims_do_not_matter() {
    let payload = segment(&format!(r#"{{"exp":1,"iss":"nobody","sub":"{}","aud":"x"}}"#, ID));
    assert_eq!(extract_user_id_from_jwt(&format!("a.{}.b", payload)), Ok(id()));
}

#[test]
fn standard_base64_is_tried_second() {
    let text = claims();
    let padded = STANDARD.encode(&text);
    assert!(padded.ends_with('='));
    assert!(URL_SAFE_NO_PAD.decode(&padded).is_err());
    assert_eq!(extract_user_id_from_jwt(&format!("a.{}.b", padded)), Ok(id()));
    assert_eq!(decode_segment(&padded), Some(text.clone().into_bytes()));
    assert_eq!(decode_segment(&segment(&text)), Some(text.into_bytes()));
    assert_eq!(decode_segment("a"), None);
}

#[test]
fn url_safe_alphabet_is_read() {
    assert_eq!(decode_segment("-_-_"), Some(vec![0xfb, 0xff, 0xbf]));
    assert_eq!(decode_segment("+/+/"), Some(vec![0xfb, 0xff, 0xbf]));
    assert_eq!(decode_standard("+/+/"), Some(vec![0xfb, 0xff, 0xbf]));
    assert_eq!(decode_standard("-_-_"), None);
    assert_eq!(decode_standard("aGk="), Some(b"hi".to_vec()));
    assert_eq!(decode_standard("aGk"), None);
    assert_eq!(decode_standard(""), Some(vec![]));
}

#[test]
fn token_without_three_segments_is_malformed() {
    let payload = segment(&claims());
    for token in [
        String::new(),
        payload.clone(),
        format!("a.{}", payload),
        format!("a.{}.b.c", payload),
        format!("a.{}.b.", payload),
        "..".repeat(2),
    ] {
        assert_eq!(extract_user_id_from_jwt(&token), Err(TokenFault::Format), "{}", token);
    }
}

#[test]
fn each_fault_of_a_token() {
    assert_eq!(extract_user_id_from_jwt("a.%%%.b"), Err(TokenFault::Base64));
    assert_eq!(extract_user_id_from_jwt("a..b"), Err(TokenFault::Json));
    let not_utf8 = URL_SAFE_NO_PAD.encode([0xff, 0xfe, 0xfd]);
    assert_eq!(extract_user_id_from_jwt(&format!("a.{}.b", not_utf8)), Err(TokenFault::Utf8));
    assert_eq!(extract_user_id_from_jwt(&format!("a.{}.b", segment("{sub"))), Err(TokenFault::Json));
    assert_eq!(extract_user_id_from_jwt(&format!("a.{}.b", segment("{}"))), Err(TokenFault::MissingSub));
    assert_eq!(extract_user_id_from_jwt(&format!("a.{}.b", segment(r#"{"sub":5}"#))), Err(TokenFault::MissingSub));
    assert_eq!(extract_user_id_from_jwt(&format!("a.{}.b", segment(r#"["sub"]"#))), Err(TokenFault::MissingSub));
    assert_eq!(
        extract_user_id_from_jwt(&format!("a.{}.b", segment(r#"{"sub":"me"}"#))),
        Err(TokenFault::InvalidUuid)
    );
}

#[test]
fn user_is_read_from_payload_and_claims() {
    assert_eq!(user_from_payload(Some(claims().into_bytes())), Ok(id()));
    assert_eq!(user_from_payload(None), Err(TokenFault::Base64));
    assert_eq!(user_from_payload(Some(vec![0xc0, 0x80])), Err(TokenFault::Utf8));
    assert_eq!(user_from_payload(Some(vec![])), Err(TokenFault::Json));
    assert_eq!(user_from_payload(Some(b"{}".to_vec())), Err(TokenFault::MissingSub));
    assert_eq!(user_from_claims(&Json::parse(&claims())), Ok(id()));
    assert_eq!(user_from_claims(&Err("no".to_string())), Err(TokenFault::Json));
    assert_eq!(user_from_claims(&Json::parse(r#"{"sub":null}"#)), Err(TokenFault::MissingSub));
    assert_eq!(user_from_claims(&Json::parse(r#"{"sub":"x"}"#)), Err(TokenFault::InvalidUuid));
}

#[test]
fn caller_is_found_from_the_header() {
    let token = format!("h.{}.s", segment(&claims()));
    let header = AuthorizationHeader::Value(format!("Bearer {}", token));
    assert_eq!(AuthenticatedUser::from_request(&header), Ok(AuthenticatedUser { user_id: id() }));
    let spaced = AuthorizationHeader::Value(format!("Bearer   {} ", token));
    assert_eq!(AuthenticatedUser::from_request(&spaced), Ok(AuthenticatedUser { user_id: id() }));
    let twice = AuthorizationHeader::Value(format!("Bearer Bearer {}", token));
    assert_eq!(AuthenticatedUser::from_request(&twice), Ok(AuthenticatedUser { user_id: id() }));
}

#[test]
fn every_refusal_is_a_401_with_the_same_words() {
    let cases = [
        (AuthorizationHeader::Missing, AuthRejection::MissingHeader, "Invalid token"),
        (AuthorizationHeader::Unreadable, AuthRejection::UnreadableHeader, "Invalid token"),
        (AuthorizationHeader::Value("Basic abc".to_string()), AuthRejection::NotBearer, "Invalid token"),
        (AuthorizationHeader::Value("bearer a.b.c".to_string()), AuthRejection::NotBearer, "Invalid token"),
        (AuthorizationHeader::Value("Bearer".to_string()), AuthRejection::NotBearer, "Invalid token"),
        (
            AuthorizationHeader::Value("Bearer not-a-token".to_string()),
            AuthRejection::InvalidToken(TokenFault::Format),
            "Invalid token",
        ),
        (
            AuthorizationHeader::Value("Bearer ".to_string()),
            AuthRejection::InvalidToken(TokenFault::Format),
            "Invalid token",
        ),
        (
            AuthorizationHeader::Value("Bearer a.b.c.d".to_string()),
            AuthRejection::InvalidToken(TokenFault::Format),
            "Invalid token",
        ),
        (
            AuthorizationHeader::Value("Bearer a.e30.c".to_string()),
            AuthRejection::InvalidToken(TokenFault::MissingSub),
            "Invalid token",
        ),
    ];
    for (header, rejection, message) in cases {
        let e = AuthenticatedUser::from_request(&header).unwrap_err();
        assert_eq!(e, rejection);
        assert_eq!(e.message(), message);
        assert_eq!(e.status(), 401);
    }
}
