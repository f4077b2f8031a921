use jsonwebtoken::Algorithm;
use jwt_core::algorithm::{alg_to_string, family, AsStr, Key, KeyFamily};
use jwt_core::claims::ClaimSet;
use jwt_core::decode::Decoded;
use jwt_core::error::TokenError;
use jwt_core::sign::{sign_at, SignOptions};
use jwt_core::verify::{verify, VerifyOptions};

fn rsa_private_body() -> String {
    [
    "MIIEogIBAAKCAQEAtQWbb4gzVxQbJWly0xy4XmkRCUV+GZZtolRz/yISg1NU0cD2SIQjNXSSIDhx",
    "VLaIxmkNW1oS0blsYttfU4YZdnKLbTuOyAsZPSywi9+FO0IolmxPaK/BEWk0/5dzIS4ALIZU1c6T",
    "jepwZIgEqAjRFARR9Iet4ftciP4JyIGC6q+tYCfISL77t29Dh9vC7LcLhTjxSp/jTquHi+25SQHL",
    "hxeuz/8RbGJR7n64Gzb5IqVvfwzJ9RTM6RqnHN5l9jowReK7LebD/KbbIPUFi+tPdZ2gwsP5pMG0",
    "58koTpluD2vaQmPnKRCtiBm2cOEixYnzQ70i7kZg6IghE23fujX7RwIDAQABAoIBAAU64bWTWr7G",
    "hLxltYmTH4REYE8Yqn7QXBLMtZQtE29RwwdTUVtY3XSeUba/AA6ztclChvF2/nvu2DDRY98CkTyy",
    "cS6seW+4jhn85o1uqlZcoCuTFDFTChUX5TA7qFe/mWwWTGijplbqHq3588uwHP2Ay4RO2NLZ86Pw",
    "AOLBuha2fDfuGeHIKNutP2knqraV1ViKwkxQwvFnW3pC1zLHpkfnWZUgc4CLkJZ7rq10azcuMRMX",
    "LFMRWyJLO9BIqzYRgnl/ZhynhMyU8UtguakC7xdM2GfBNgs3gXGfdrUR6DS0Et0NtRhm6qNxI8S2",
    "hkZPhfz3I3Tp65MptQQxUun2PYECgYEA2Ww50STTopTQqx9ccMT54eyi4tTQWj+6Oiwg3eFmwBQh",
    "il3ix6KDdfjHnz3gt4O3Z6AaL9aOa95kQ5Vy7vjuXmlvCGV5nTYo/Mii+zOyOb2YgW0bVCOwF4Ap",
    "9CF6F5YH0VnUPpXVCB040Dg1haQ7xFQYE4j1CET8uyBnd/sNMeECgYEA1SP7a7xwdmEDq1qmtaEv",
    "MSJ1sVmnU9axsT2h3SaKQzHO4IvLVaRIz/coKsq2DQAaUwzK6e2EVTEBh0T6wbzJ4W0nJ6TkJhhC",
    "s/TdCBvcVzJpydLxidjd3EY0GPAErwxFrpXifXCjRLDVuKIbLMgeGew6xUMYyKx+KQgtvAwDoicC",
    "gYAvlyHcpovwdVRrcHTidisgCZTpw51Lc9GGdCxJhNHhz0Y8LCq8edT+mJLRR1ENujYF56Rzvin0",
    "cHxP0sGSj0hVwAw+sT96auVz11LdW0Zynw5nngMyWpFrw3Drb/xydzOE3n23qUI1AXhzEyqb8wPm",
    "CGYwuHSx96++Ieyj9X7A4QKBgFwwyyAnitF5Vvf4JuGrDVmIWTXT3I9j7soGKYwZjnZQBfaUIOgz",
    "PhdOBX603Zez8q73epFCXhnnL40N5hSEjyHFb8kzBkf/+GIUSMKoIl9I+/8DEdyZBCWx6/jZYH1C",
    "pqVESYoOfWBJyLeqzmxJRtPZnPYT9pVeHteqpPWQkMXDAoGAT6gNDKMI02pWyZRzH0a7DriaCB/X",
    "Eeww+r0Vh1uwajGNtzbBBTOVBjBXqZgPaLR5p5seIU4nrSpchbvovcS9LqS5Vvog9kJFeK2tL1FU",
    "vEsSiWoPiyTjgnjQMurpmGbpGQnH6yrkbCM70Vtcqh4i/RbFNohwfOg6R5hLz5vcrkY=",
    ]
    .concat()
}

fn rsa_public_body() -> String {
    [
    "MIIBIjANBgkqhkiG9w0BAQEFAAOCAQ8AMIIBCgKCAQEAtQWbb4gzVxQbJWly0xy4XmkRCUV+GZZt",
    "olRz/yISg1NU0cD2SIQjNXSSIDhxVLaIxmkNW1oS0blsYttfU4YZdnKLbTuOyAsZPSywi9+FO0Io",
    "lmxPaK/BEWk0/5dzIS4ALIZU1c6TjepwZIgEqAjRFARR9Iet4ftciP4JyIGC6q+tYCfISL77t29D",
    "h9vC7LcLhTjxSp/jTquHi+25SQHLhxeuz/8RbGJR7n64Gzb5IqVvfwzJ9RTM6RqnHN5l9jowReK7",
    "LebD/KbbIPUFi+tPdZ2gwsP5pMG058koTpluD2vaQmPnKRCtiBm2cOEixYnzQ70i7kZg6IghE23f",
    "ujX7RwIDAQAB",
    ]
    .concat()
}

fn ec_private_body() -> String {
    [
    "MIGHAgEAMBMGByqGSM49AgEGCCqGSM49AwEHBG0wawIBAQQgC/lclczo28L/ZZl4HGrk76XhCcnJ",
    "o5JQoUwydk/vH4ehRANCAATIqTyXmpCsyDqElAUZ3oO+TsAp6+J+Q9S35S0Bu/hxQXaNUF0r6+VT",
    "JdiiVixsPT5wy7Q8+pe4uI+7+wD+cyl0",
    ]
    .concat()
}

fn ec_public_body() -> String {
    [
    "MFkwEwYHKoZIzj0CAQYIKoZIzj0DAQcDQgAEyKk8l5qQrMg6hJQFGd6Dvk7AKevifkPUt+UtAbv4",
    "cUF2jVBdK+vlUyXYolYsbD0+cMu0PPqXuLiPu/sA/nMpdA==",
    ]
    .concat()
}


fn pem(label: &[&str], body: &str) -> Vec<u8> {
    let label = label.join(" ");
    let mut text = format!("-----BEGIN {}-----\n", label);
    let mut rest = body;
    while !rest.is_empty() {
        let cut = rest.len().min(64);
        text.push_str(&rest[..cut]);
        text.push('\n');
        rest = &rest[cut..];
    }
    text.push_str(&format!("-----END {}-----\n", label));
    text.into_bytes()
}

fn rsa_private() -> Vec<u8> {
    pem(&["RSA", "PRIVATE", "KEY"], &rsa_private_body())
}

fn rsa_public() -> Vec<u8> {
    pem(&["PUBLIC", "KEY"], &rsa_public_body())
}

fn ec_private() -> Vec<u8> {
    pem(&["PRIVATE", "KEY"], &ec_private_body())
}

fn ec_public() -> Vec<u8> {
    pem(&["PUBLIC", "KEY"], &ec_public_body())
}

fn lenient(algorithms: Vec<Algorithm>) -> VerifyOptions {
    let mut options = VerifyOptions::default();
    options.algorithms = algorithms;
    options.ignore_expiration = Some(true);
    options
}

fn claims_of(decoded: Decoded) -> ClaimSet {
    match decoded {
        Decoded::Claims(claims) => claims,
        Decoded::Complete { payload, .. } => payload,
    }
}

#[test]
fn every_algorithm_has_its_family() {
    assert_eq!(family(Algorithm::HS256), KeyFamily::Hmac);
    assert_eq!(family(Algorithm::HS384), KeyFamily::Hmac);
    assert_eq!(family(Algorithm::HS512), KeyFamily::Hmac);
    assert_eq!(family(Algorithm::RS256), KeyFamily::Rsa);
    assert_eq!(family(Algorithm::RS384), KeyFamily::Rsa);
    assert_eq!(family(Algorithm::RS512), KeyFamily::Rsa);
    assert_eq!(family(Algorithm::PS256), KeyFamily::Rsa);
    assert_eq!(family(Algorithm::PS384), KeyFamily::Rsa);
    assert_eq!(family(Algorithm::PS512), KeyFamily::Rsa);
    assert_eq!(family(Algorithm::ES256), KeyFamily::Ec);
    assert_eq!(family(Algorithm::ES384), KeyFamily::Ec);
}

#[test]
fn any_bytes_make_an_hmac_key() {
    assert!(Algorithm::HS256.get_encoding_key(b"").is_ok());
    assert!(Algorithm::HS384.get_encoding_key(b"secret").is_ok());
    assert!(Algorithm::HS512.get_decoding_key(&[0u8, 255, 7]).is_ok());
}

#[test]
fn rsa_algorithms_take_an_rsa_pem_file_only() {
    assert!(Algorithm::RS256.get_encoding_key(&rsa_private()).is_ok());
    assert!(Algorithm::PS512.get_encoding_key(&rsa_private()).is_ok());
    assert!(Algorithm::RS384.get_decoding_key(&rsa_public()).is_ok());
    assert!(matches!(
        Algorithm::RS256.get_encoding_key(b"secret"),
        Err(TokenError::InvalidKeyMaterial)
    ));
    assert!(matches!(
        Algorithm::RS256.get_decoding_key(b"secret"),
        Err(TokenError::InvalidKeyMaterial)
    ));
    assert!(matches!(
        Algorithm::RS256.get_encoding_key(&ec_private()),
        Err(TokenError::InvalidKeyMaterial)
    ));
    assert!(matches!(
        Algorithm::PS256.get_decoding_key(&ec_public()),
        Err(TokenError::InvalidKeyMaterial)
    ));
}

#[test]
fn ec_algorithms_take_an_ec_pem_file_only() {
    assert!(Algorithm::ES256.get_encoding_key(&ec_private()).is_ok());
    assert!(Algorithm::ES256.get_decoding_key(&ec_public()).is_ok());
    assert!(matches!(
        Algorithm::ES256.get_encoding_key(&rsa_private()),
        Err(TokenError::InvalidKeyMaterial)
    ));
    assert!(matches!(
        Algorithm::ES384.get_decoding_key(&rsa_public()),
        Err(TokenError::InvalidKeyMaterial)
    ));
    assert!(matches!(
        Algorithm::ES256.get_encoding_key(&ec_public()),
        Err(TokenError::InvalidKeyMaterial)
    ));
    assert!(matches!(
        Algorithm::ES256.get_decoding_key(b""),
        Err(TokenError::InvalidKeyMaterial)
    ));
}

#[test]
fn rsa_token_is_accepted_under_the_public_key() {
    let mut payload = ClaimSet::new();
    payload.insert("sub".to_string(), "\"alice\"".to_string());
    for alg in [Algorithm::RS256, Algorithm::RS384, Algorithm::RS512, Algorithm::PS256] {
        let mut options = SignOptions::default();
        options.algorithm = Some(alg);
        let mut claims = ClaimSet::new();
        claims.insert("sub".to_string(), "\"alice\"".to_string());
        let token = sign_at(claims, &rsa_private(), &options, 7).unwrap();
        let shown = claims_of(verify(&token, &rsa_public(), &lenient(vec![alg])).unwrap());
        assert_eq!(shown.get("sub"), payload.get("sub"));
        assert_eq!(shown.get("iat"), Some("7"));
    }
}

#[test]
fn ec_token_is_accepted_under_the_public_key() {
    let mut options = SignOptions::default();
    options.algorithm = Some(Algorithm::ES256);
    let token = sign_at(ClaimSet::new(), &ec_private(), &options, 7).unwrap();
    let shown = claims_of(verify(&token, &ec_public(), &lenient(vec![Algorithm::ES256])).unwrap());
    assert_eq!(shown.get("iat"), Some("7"));
}

#[test]
fn a_public_key_cannot_sign() {
    let mut options = SignOptions::default();
    options.algorithm = Some(Algorithm::RS256);
    assert!(matches!(
        sign_at(ClaimSet::new(), &rsa_public(), &options, 7),
        Err(TokenError::InvalidKeyMaterial)
    ));
}

#[test]
fn token_signed_with_rs256_is_refused_where_only_hs256_is_accepted() {
    let mut options = SignOptions::default();
    options.algorithm = Some(Algorithm::RS256);
    let token = sign_at(ClaimSet::new(), &rsa_private(), &options, 7).unwrap();
    let accept = lenient(vec![Algorithm::HS256]);
    assert!(matches!(
        verify(&token, b"secret", &accept),
        Err(TokenError::UnsupportedAlgorithm)
    ));
    assert!(matches!(
        verify(&token, &rsa_public(), &accept),
        Err(TokenError::UnsupportedAlgorithm)
    ));
}

#[test]
fn the_key_goes_by_the_first_accepted_algorithm() {
    let mut options = SignOptions::default();
    options.algorithm = Some(Algorithm::RS256);
    let token = sign_at(ClaimSet::new(), &rsa_private(), &options, 7).unwrap();
    // RS256 first: the bytes must be an RSA key.
    assert!(matches!(
        verify(&token, b"secret", &lenient(vec![Algorithm::RS256])),
        Err(TokenError::InvalidKeyMaterial)
    ));
    // HS256 first: the key is a secret, and an RSA token cannot be judged with it.
    assert!(matches!(
        verify(&token, b"secret", &lenient(vec![Algorithm::HS256, Algorithm::RS256])),
        Err(TokenError::UnsupportedAlgorithm)
    ));
    // RSA first: the token is judged, whatever else is accepted.
    assert!(verify(&token, &rsa_public(), &lenient(vec![Algorithm::RS256, Algorithm::HS256])).is_ok());
    assert!(verify(&token, &rsa_public(), &lenient(vec![Algorithm::PS256, Algorithm::RS256])).is_ok());
    let mut options = SignOptions::default();
    options.algorithm = Some(Algorithm::HS256);
    let by_secret = sign_at(ClaimSet::new(), b"secret", &options, 7).unwrap();
    assert!(matches!(
        verify(&by_secret, &rsa_public(), &lenient(vec![Algorithm::RS256, Algorithm::HS256])),
        Err(TokenError::UnsupportedAlgorithm)
    ));
}

#[test]
fn rsa_token_with_another_signature_is_refused() {
    let mut options = SignOptions::default();
    options.algorithm = Some(Algorithm::RS256);
    let token = sign_at(ClaimSet::new(), &rsa_private(), &options, 7).unwrap();
    let other = sign_at(ClaimSet::new(), &rsa_private(), &options, 8).unwrap();
    let cut = token.rfind('.').unwrap();
    let forged = format!("{}{}", &token[..cut], &other[other.rfind('.').unwrap()..]);
    assert!(matches!(
        verify(&forged, &rsa_public(), &lenient(vec![Algorithm::RS256])),
        Err(TokenError::SignatureInvalid)
    ));
}

#[test]
fn every_algorithm_has_its_name() {
    let names = [
        (Algorithm::HS256, "HS256"),
        (Algorithm::HS384, "HS384"),
        (Algorithm::HS512, "HS512"),
        (Algorithm::ES256, "ES256"),
        (Algorithm::ES384, "ES384"),
        (Algorithm::RS256, "RS256"),
        (Algorithm::RS384, "RS384"),
        (Algorithm::RS512, "RS512"),
        (Algorithm::PS256, "PS256"),
        (Algorithm::PS384, "PS384"),
        (Algorithm::PS512, "PS512"),
    ];
    for (alg, name) in names {
        assert_eq!(alg.as_str(), name);
        assert_eq!(alg_to_string(alg), name);
        assert_eq!(name.parse::<Algorithm>().unwrap(), alg);
    }
}
