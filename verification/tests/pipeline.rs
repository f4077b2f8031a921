use jsonwebtoken::Algorithm;
use jwt_core::claims::ClaimSet;
use jwt_core::decode::{decode, DecodeOptions, Decoded};
use jwt_core::error::TokenError;
use jwt_core::sign::{sign, sign_at, SignOptions};
use jwt_core::verify::{verify, VerifyOptions};

fn now() -> u64 {
    std::time::SystemTime::now().duration_since(std::time::UNIX_EPOCH).unwrap().as_secs()
}

fn claims_of(decoded: Decoded) -> ClaimSet {
    match decoded {
        Decoded::Claims(claims) => claims,
        Decoded::Complete { .. } => panic!("only the claims were asked for"),
    }
}

fn same_claims(a: &ClaimSet, b: &ClaimSet) -> bool {
    a.entries().len() == b.entries().len()
        && a.entries().iter().all(|(name, json)| b.get(name) == Some(json.as_str()))
}

fn sample_payload() -> ClaimSet {
    let mut payload = ClaimSet::new();
    payload.set_text("sub", "alice");
    payload.set_text("name", "Alice \u{1F600} \"A\"");
    payload.set_number("level", 7);
    payload.insert("roles".to_string(), "[\"admin\",\"ops\"]".to_string());
    payload.insert("profile".to_string(), "{\"active\":true,\"score\":-2.5}".to_string());
    payload
}

fn hmac_only(ignore_expiration: bool) -> VerifyOptions {
    let mut options = VerifyOptions::default();
    options.algorithms = vec![Algorithm::HS256];
    options.ignore_expiration = Some(ignore_expiration);
    options
}

#[test]
fn sign_then_verify_returns_the_claims_with_iat_and_exp() {
    let mut payload = ClaimSet::new();
    payload.set_text("sub", "alice");
    let mut options = SignOptions::default();
    options.expires_in = Some(3600);
    options.algorithm = Some(Algorithm::HS256);
    let before = now();
    let token = sign(payload, b"secret", &options).unwrap();
    let after = now();

    let claims = claims_of(verify(&token, b"secret", &hmac_only(false)).unwrap());
    assert_eq!(claims.get("sub"), Some("\"alice\""));
    let iat = claims.number("iat").unwrap();
    assert!(before <= iat && iat <= after);
    assert_eq!(claims.number("exp"), Some(iat + 3600));
    assert_eq!(claims.entries().len(), 3);
}

#[test]
fn round_trip_returns_the_payload_plus_the_time_of_issue() {
    for key in [&b"secret"[..], &b""[..], &[0u8, 1, 2, 255][..]] {
        let t0 = now();
        let token = sign_at(sample_payload(), key, &SignOptions::default(), t0).unwrap();
        let claims = claims_of(verify(&token, key, &hmac_only(false)).unwrap());
        let mut expected = sample_payload();
        expected.set_number("iat", t0);
        assert!(same_claims(&claims, &expected));
    }
}

#[test]
fn round_trip_without_timestamp_returns_the_payload() {
    let mut options = SignOptions::default();
    options.no_timestamp = Some(true);
    let token = sign(sample_payload(), b"secret", &options).unwrap();
    let claims = claims_of(verify(&token, b"secret", &hmac_only(false)).unwrap());
    assert!(same_claims(&claims, &sample_payload()));
    assert!(!claims.contains("iat"));
}

#[test]
fn round_trip_with_the_options_of_a_caller_who_asks_for_nothing() {
    let mut payload = ClaimSet::new();
    payload.set_text("sub", "alice");
    payload.set_number("level", 3);
    let before = now();
    let token = sign(payload, b"secret", &SignOptions::default()).unwrap();
    let after = now();
    let claims = claims_of(verify(&token, b"secret", &VerifyOptions::default()).unwrap());
    assert_eq!(claims.get("sub"), Some("\"alice\""));
    assert_eq!(claims.number("level"), Some(3));
    let iat = claims.number("iat").unwrap();
    assert!(before <= iat && iat <= after);
    assert_eq!(claims.entries().len(), 3);
}

#[test]
fn round_trip_holds_for_every_hmac_algorithm() {
    for alg in [Algorithm::HS256, Algorithm::HS384, Algorithm::HS512] {
        let mut asked = SignOptions::default();
        asked.algorithm = Some(alg);
        asked.expires_in = Some(60);
        let token = sign(sample_payload(), b"secret", &asked).unwrap();
        let mut options = VerifyOptions::default();
        options.algorithms = vec![alg];
        let claims = claims_of(verify(&token, b"secret", &options).unwrap());
        assert_eq!(claims.get("roles"), Some("[\"admin\",\"ops\"]"));
        assert_eq!(claims.entries().len(), 7);
    }
}

#[test]
fn changing_any_character_of_the_signature_is_found_out() {
    let mut asked = SignOptions::default();
    asked.expires_in = Some(3600);
    let token = sign(sample_payload(), b"secret", &asked).unwrap();
    let start = token.rfind('.').unwrap() + 1;
    for at in start..token.len() {
        for bit in 0..6 {
            let mut bytes = token.clone().into_bytes();
            bytes[at] ^= 1 << bit;
            let forged = match String::from_utf8(bytes) {
                Ok(text) => text,
                Err(_) => continue,
            };
            let outcome = verify(&forged, b"secret", &hmac_only(false));
            assert!(
                matches!(outcome, Err(TokenError::SignatureInvalid) | Err(TokenError::MalformedToken)),
                "{} gave {:?}",
                forged,
                outcome
            );
        }
    }
}

#[test]
fn changing_any_bit_of_header_or_claims_is_found_out() {
    let mut asked = SignOptions::default();
    asked.expires_in = Some(3600);
    let token = sign(sample_payload(), b"secret", &asked).unwrap();
    let end = token.rfind('.').unwrap();
    let mut refused = 0;
    for at in 0..end {
        for bit in 0..7 {
            let mut bytes = token.clone().into_bytes();
            bytes[at] ^= 1 << bit;
            let forged = String::from_utf8(bytes).unwrap();
            let outcome = verify(&forged, b"secret", &hmac_only(false));
            assert!(
                matches!(
                    outcome,
                    Err(TokenError::SignatureInvalid)
                        | Err(TokenError::MalformedToken)
                        | Err(TokenError::UnsupportedAlgorithm)
                ),
                "{} gave {:?}",
                forged,
                outcome
            );
            refused += 1;
        }
    }
    assert_eq!(refused, end * 7);
}

#[test]
fn expired_token_is_refused_unless_expiry_is_ignored() {
    let mut options = SignOptions::default();
    options.expires_in = Some(10);
    let token = sign_at(ClaimSet::new(), b"secret", &options, 1000).unwrap();

    assert_eq!(verify(&token, b"secret", &hmac_only(false)).err(), Some(TokenError::TokenExpired));

    let claims = claims_of(verify(&token, b"secret", &hmac_only(true)).unwrap());
    assert_eq!(claims.get("exp"), Some("1010"));
    assert_eq!(claims.get("iat"), Some("1000"));
}

#[test]
fn token_that_expires_now_is_expired_a_moment_later() {
    let mut options = SignOptions::default();
    options.expires_in = Some(0);
    let token = sign(ClaimSet::new(), b"secret", &options).unwrap();
    let issued = claims_of(verify(&token, b"secret", &hmac_only(true)).unwrap()).number("exp").unwrap();
    while now() <= issued + 1 {
        std::hint::spin_loop();
    }
    assert_eq!(verify(&token, b"secret", &hmac_only(false)).err(), Some(TokenError::TokenExpired));
    assert!(verify(&token, b"secret", &hmac_only(true)).is_ok());
}

#[test]
fn token_signed_under_another_algorithm_is_unsupported() {
    for alg in [Algorithm::HS384, Algorithm::HS512] {
        let mut asked = SignOptions::default();
        asked.algorithm = Some(alg);
        asked.expires_in = Some(60);
        let token = sign(ClaimSet::new(), b"secret", &asked).unwrap();
        assert_eq!(
            verify(&token, b"secret", &hmac_only(false)).err(),
            Some(TokenError::UnsupportedAlgorithm)
        );
    }
}

#[test]
fn decode_does_not_look_at_the_signature() {
    let mut payload = ClaimSet::new();
    payload.insert("role".to_string(), "[\"admin\",\"ops\"]".to_string());
    let token = sign_at(payload, b"secret", &SignOptions::default(), 5).unwrap();
    let cut = token.rfind('.').unwrap();
    let honest = claims_of(decode(&token, &DecodeOptions::default()).unwrap());

    for signature in ["c", "", "!!! not base64 !!!", "AAAA"] {
        let forged = format!("{}.{}", &token[..cut], signature);
        let claims = claims_of(decode(&forged, &DecodeOptions::default()).unwrap());
        assert!(same_claims(&claims, &honest));
        assert_eq!(claims.get("role"), Some("[\"admin\",\"ops\"]"));
        assert!(verify(&forged, b"secret", &hmac_only(true)).is_err());
    }
}

#[test]
fn decode_complete_of_a_token_with_any_signature() {
    let token = sign_at(sample_payload(), b"secret", &SignOptions::default(), 5).unwrap();
    let cut = token.rfind('.').unwrap();
    let text = format!("{}.c", &token[..cut]);
    let mut all = DecodeOptions::default();
    all.complete = Some(true);
    match decode(&text, &all).unwrap() {
        Decoded::Complete { payload, header, signature } => {
            assert_eq!(signature, "c");
            assert_eq!(header.alg, Algorithm::HS256);
            let mut expected = sample_payload();
            expected.set_number("iat", 5);
            assert!(same_claims(&payload, &expected));
        }
        Decoded::Claims(_) => panic!("header and signature were asked for"),
    }
}

#[test]
fn accepted_token_is_read_alike_without_checks() {
    let mut asked = SignOptions::default();
    asked.expires_in = Some(60);
    asked.issuer = Some("issuer".to_string());
    let token = sign(sample_payload(), b"secret", &asked).unwrap();
    let mut options = hmac_only(false);
    options.issuer = Some("issuer".to_string());
    let checked = claims_of(verify(&token, b"secret", &options).unwrap());
    let unchecked = claims_of(decode(&token, &DecodeOptions::default()).unwrap());
    assert!(same_claims(&checked, &unchecked));
}
