use jsonwebtoken::{Algorithm, Header};
use jwt_core::claims::ClaimSet;
use jwt_core::decode::{decode, DecodeOptions, Decoded};
use jwt_core::error::TokenError;
use jwt_core::sign::{sign_at, SignOptions};

fn base64url(bytes: &[u8]) -> String {
    let table = b"ABCDEFGHIJKLMNOPQRSTUVWXYZabcdefghijklmnopqrstuvwxyz0123456789-_";
    let mut text = String::new();
    for chunk in bytes.chunks(3) {
        let b = [chunk[0], *chunk.get(1).unwrap_or(&0), *chunk.get(2).unwrap_or(&0)];
        let n = ((b[0] as u32) << 16) | ((b[1] as u32) << 8) | b[2] as u32;
        text.push(table[(n >> 18) as usize & 63] as char);
        text.push(table[(n >> 12) as usize & 63] as char);
        if chunk.len() > 1 {
            text.push(table[(n >> 6) as usize & 63] as char);
        }
        if chunk.len() > 2 {
            text.push(table[n as usize & 63] as char);
        }
    }
    text
}

fn token(header: &str, claims: &str, signature: &str) -> String {
    format!("{}.{}.{}", base64url(header.as_bytes()), base64url(claims.as_bytes()), signature)
}

fn all() -> DecodeOptions {
    DecodeOptions { complete: Some(true) }
}

#[test]
fn default_options_ask_for_the_claims_alone() {
    assert_eq!(DecodeOptions::default().complete, Some(false));
}

#[test]
fn decode_hands_out_the_claims_alone_by_default() {
    let text = token("{\"alg\":\"HS256\",\"typ\":\"JWT\"}", "{\"sub\":\"1234567890\",\"admin\":true}", "c");
    for options in [DecodeOptions::default(), DecodeOptions { complete: None }, DecodeOptions { complete: Some(false) }] {
        match decode(&text, &options).unwrap() {
            Decoded::Claims(claims) => {
                assert_eq!(claims.get("sub"), Some("\"1234567890\""));
                assert_eq!(claims.get("admin"), Some("true"));
                assert_eq!(claims.entries().len(), 2);
            }
            Decoded::Complete { .. } => panic!("only the claims were asked for"),
        }
    }
}

#[test]
fn decode_complete_hands_out_payload_header_and_signature() {
    let text = token("{\"alg\":\"RS256\",\"typ\":\"JWT\",\"kid\":\"k1\"}", "{\"sub\":\"alice\"}", "c");
    match decode(&text, &all()).unwrap() {
        Decoded::Complete { payload, header, signature } => {
            assert_eq!(payload.get("sub"), Some("\"alice\""));
            let mut expected = Header::new(Algorithm::RS256);
            expected.kid = Some("k1".to_string());
            assert_eq!(header, expected);
            assert_eq!(signature, "c");
        }
        Decoded::Claims(_) => panic!("header and signature were asked for"),
    }
}

#[test]
fn decode_needs_no_key_and_checks_no_claim() {
    let text = token("{\"alg\":\"ES384\"}", "{\"exp\":1,\"nbf\":99999999999,\"iss\":\"nobody\"}", "");
    let shown = decode(&text, &DecodeOptions::default()).unwrap();
    assert_eq!(shown.payload().number("exp"), Some(1));
    assert_eq!(shown.payload().get("iss"), Some("\"nobody\""));
}

#[test]
fn payload_is_the_claims_in_either_form() {
    let text = token("{\"alg\":\"HS256\"}", "{\"n\":1}", "sig");
    assert_eq!(decode(&text, &DecodeOptions::default()).unwrap().payload().get("n"), Some("1"));
    assert_eq!(decode(&text, &all()).unwrap().payload().get("n"), Some("1"));
}

#[test]
fn shape_follows_the_option() {
    let header = Header::new(Algorithm::HS256);
    let mut claims = ClaimSet::new();
    claims.set_number("n", 1);
    assert!(matches!(Decoded::shape(None, header.clone(), claims.clone(), "s"), Decoded::Claims(_)));
    assert!(matches!(Decoded::shape(Some(false), header.clone(), claims.clone(), "s"), Decoded::Claims(_)));
    match Decoded::shape(Some(true), header.clone(), claims, "s") {
        Decoded::Complete { payload, header: shown, signature } => {
            assert_eq!(payload.number("n"), Some(1));
            assert_eq!(shown, header);
            assert_eq!(signature, "s");
        }
        Decoded::Claims(_) => panic!("header and signature were asked for"),
    }
}

#[test]
fn decode_refuses_text_without_three_segments() {
    for text in ["", "a", "a.b", "a.b.c.d", "no dots at all"] {
        assert_eq!(decode(text, &all()).err(), Some(TokenError::MalformedToken), "{:?}", text);
    }
}

#[test]
fn decode_refuses_segments_that_are_no_base64url() {
    let good = token("{\"alg\":\"HS256\"}", "{}", "c");
    let parts: Vec<&str> = good.split('.').collect();
    for text in [
        "a.b.c".to_string(),
        format!("{}.@@@@.c", parts[0]),
        format!("{}.{}==.c", parts[0], parts[1]),
        format!("{}=.{}.c", parts[0], parts[1]),
        format!("{} .{}.c", parts[0], parts[1]),
        format!("{}.{}.c", parts[0], base64url(&[0xff, 0xfe])),
    ] {
        assert_eq!(decode(&text, &all()).err(), Some(TokenError::MalformedToken), "{:?}", text);
    }
}

#[test]
fn decode_refuses_claims_that_are_no_json_object() {
    for claims in ["[]", "1", "\"a\"", "null", "{\"a\"}", "{\"a\":1"] {
        let text = token("{\"alg\":\"HS256\"}", claims, "c");
        assert_eq!(decode(&text, &all()).err(), Some(TokenError::InvalidClaims), "{}", claims);
    }
}

#[test]
fn decode_refuses_a_header_without_a_known_algorithm() {
    for header in ["{}", "{\"alg\":\"none\"}", "{\"alg\":\"hs256\"}"] {
        let text = token(header, "{}", "c");
        assert_eq!(decode(&text, &all()).err(), Some(TokenError::UnsupportedAlgorithm), "{}", header);
    }
    let text = token("[]", "{}", "c");
    assert!(decode(&text, &all()).is_err());
}

#[test]
fn the_later_of_two_claims_with_one_name_counts() {
    let text = token("{\"alg\":\"HS256\"}", "{\"a\":1,\"b\":2,\"a\":3}", "c");
    let shown = decode(&text, &DecodeOptions::default()).unwrap();
    assert_eq!(shown.payload().get("a"), Some("3"));
    assert_eq!(shown.payload().entries().len(), 2);
}

#[test]
fn decode_reads_what_sign_wrote() {
    let mut payload = ClaimSet::new();
    payload.set_text("sub", "alice \"the\" first\n");
    payload.set_number("level", 3);
    let mut asked = SignOptions::default();
    asked.expires_in = Some(5);
    let text = sign_at(payload, b"secret", &asked, 100).unwrap();
    let shown = decode(&text, &DecodeOptions::default()).unwrap();
    let mut expected = ClaimSet::new();
    expected.set_text("sub", "alice \"the\" first\n");
    assert_eq!(shown.payload().get("sub"), expected.get("sub"));
    assert_eq!(shown.payload().number("level"), Some(3));
    assert_eq!(shown.payload().number("iat"), Some(100));
    assert_eq!(shown.payload().number("exp"), Some(105));
    assert_eq!(shown.payload().entries().len(), 4);
}
