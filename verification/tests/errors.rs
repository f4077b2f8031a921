use jwt_core::error::{FailureKind, JsonFault, Rejection, TokenError};

#[test]
fn every_rejection_has_its_error() {
    assert_eq!(TokenError::from_rejection(Rejection::Signature), TokenError::SignatureInvalid);
    assert_eq!(TokenError::from_rejection(Rejection::Expired), TokenError::TokenExpired);
    assert_eq!(TokenError::from_rejection(Rejection::Immature), TokenError::TokenNotYetValid);
    assert_eq!(TokenError::from_rejection(Rejection::Issuer), TokenError::ClaimMismatch);
    assert_eq!(TokenError::from_rejection(Rejection::Subject), TokenError::ClaimMismatch);
    assert_eq!(TokenError::from_rejection(Rejection::Audience), TokenError::ClaimMismatch);
}

#[test]
fn every_failure_of_a_check_has_its_error() {
    let expected = [
        (FailureKind::InvalidToken, TokenError::MalformedToken),
        (FailureKind::Base64, TokenError::MalformedToken),
        (FailureKind::Utf8, TokenError::MalformedToken),
        (FailureKind::Other, TokenError::MalformedToken),
        (FailureKind::Json, TokenError::InvalidClaims),
        (FailureKind::InvalidSignature, TokenError::SignatureInvalid),
        (FailureKind::InvalidEcdsaKey, TokenError::InvalidKeyMaterial),
        (FailureKind::InvalidRsaKey, TokenError::InvalidKeyMaterial),
        (FailureKind::InvalidKeyFormat, TokenError::InvalidKeyMaterial),
        (FailureKind::Crypto, TokenError::InvalidKeyMaterial),
        (FailureKind::InvalidAlgorithmName, TokenError::UnsupportedAlgorithm),
        (FailureKind::InvalidAlgorithm, TokenError::UnsupportedAlgorithm),
    ];
    for (kind, error) in expected {
        assert_eq!(TokenError::from_failure(kind), error);
    }
}

#[test]
fn every_failure_of_signing_has_its_error() {
    let expected = [
        (FailureKind::Json, TokenError::InvalidClaims),
        (FailureKind::InvalidAlgorithm, TokenError::UnsupportedAlgorithm),
        (FailureKind::InvalidRsaKey, TokenError::InvalidKeyMaterial),
        (FailureKind::InvalidEcdsaKey, TokenError::InvalidKeyMaterial),
        (FailureKind::InvalidKeyFormat, TokenError::InvalidKeyMaterial),
        (FailureKind::Crypto, TokenError::InvalidKeyMaterial),
        (FailureKind::Other, TokenError::InvalidKeyMaterial),
    ];
    for (kind, error) in expected {
        assert_eq!(TokenError::from_signing_failure(kind), error);
    }
}

#[test]
fn a_header_of_the_wrong_shape_names_no_algorithm() {
    assert_eq!(TokenError::from_header_failure(Some(JsonFault::Data)), TokenError::UnsupportedAlgorithm);
    assert_eq!(TokenError::from_header_failure(Some(JsonFault::Syntax)), TokenError::MalformedToken);
    assert_eq!(TokenError::from_header_failure(Some(JsonFault::Eof)), TokenError::MalformedToken);
    assert_eq!(TokenError::from_header_failure(Some(JsonFault::Io)), TokenError::MalformedToken);
    assert_eq!(TokenError::from_header_failure(None), TokenError::MalformedToken);
}

#[test]
fn claims_failure_with_json_fault_is_invalid_claims() {
    assert_eq!(TokenError::from_claims_failure(Some(JsonFault::Data)), TokenError::InvalidClaims);
    assert_eq!(TokenError::from_claims_failure(Some(JsonFault::Syntax)), TokenError::InvalidClaims);
    assert_eq!(TokenError::from_claims_failure(Some(JsonFault::Eof)), TokenError::InvalidClaims);
    assert_eq!(TokenError::from_claims_failure(None), TokenError::MalformedToken);
}

#[test]
fn every_error_has_its_own_name() {
    let all = [
        TokenError::MalformedToken,
        TokenError::InvalidClaims,
        TokenError::InvalidKeyMaterial,
        TokenError::UnsupportedAlgorithm,
        TokenError::SignatureInvalid,
        TokenError::TokenExpired,
        TokenError::TokenNotYetValid,
        TokenError::ClaimMismatch,
    ];
    for a in all {
        assert_eq!(a.name(), format!("{:?}", a));
        for b in all {
            assert_eq!(a.name() == b.name(), a == b);
        }
    }
}
