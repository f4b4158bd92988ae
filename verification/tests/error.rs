use passhub::error::{ErrorClass, SyncError};
use passhub::menu::error_code;

#[test]
fn every_failure_has_its_class() {
    assert_eq!(SyncError::InvalidBackendUrl.class(), ErrorClass::Configuration);
    assert_eq!(SyncError::UnreachableBackend.class(), ErrorClass::Configuration);
    assert_eq!(SyncError::Unauthorized.class(), ErrorClass::Authentication);
    assert_eq!(SyncError::AccountExists.class(), ErrorClass::Conflict);
    assert_eq!(SyncError::UnknownAccount.class(), ErrorClass::Conflict);
    assert_eq!(SyncError::MalformedRequest.class(), ErrorClass::Protocol);
    assert_eq!(SyncError::BackendFault.class(), ErrorClass::Protocol);
    assert_eq!(SyncError::UnexpectedStatus(302).class(), ErrorClass::Protocol);
    assert_eq!(SyncError::MalformedReply.class(), ErrorClass::Protocol);
    assert_eq!(SyncError::MalformedEnvelope.class(), ErrorClass::Protocol);
    assert_eq!(SyncError::MalformedVault.class(), ErrorClass::Protocol);
    assert_eq!(SyncError::KeyDerivation.class(), ErrorClass::Cryptographic);
    assert_eq!(SyncError::Encryption.class(), ErrorClass::Cryptographic);
    assert_eq!(SyncError::Decryption.class(), ErrorClass::Cryptographic);
    assert_eq!(SyncError::Network.class(), ErrorClass::Network);
}

#[test]
fn only_key_derivation_is_fatal() {
    assert!(SyncError::KeyDerivation.is_fatal());
    assert_eq!(SyncError::KeyDerivation.exit_code(), 1);
    for e in [
        SyncError::InvalidBackendUrl,
        SyncError::UnreachableBackend,
        SyncError::Unauthorized,
        SyncError::AccountExists,
        SyncError::UnknownAccount,
        SyncError::MalformedRequest,
        SyncError::BackendFault,
        SyncError::UnexpectedStatus(418),
        SyncError::MalformedReply,
        SyncError::MalformedEnvelope,
        SyncError::MalformedVault,
        SyncError::Encryption,
        SyncError::Decryption,
        SyncError::Network,
    ] {
        assert!(!e.is_fatal(), "{:?}", e);
        assert_eq!(e.exit_code(), 0, "{:?}", e);
    }
}

#[test]
fn failures_are_shown_under_their_status_code() {
    assert_eq!(error_code(&SyncError::MalformedRequest), 400);
    assert_eq!(error_code(&SyncError::Unauthorized), 401);
    assert_eq!(error_code(&SyncError::UnknownAccount), 404);
    assert_eq!(error_code(&SyncError::AccountExists), 409);
    assert_eq!(error_code(&SyncError::BackendFault), 500);
    assert_eq!(error_code(&SyncError::UnexpectedStatus(302)), 302);
    assert_eq!(error_code(&SyncError::Network), 418);
    assert_eq!(error_code(&SyncError::Decryption), 418);
    assert_eq!(error_code(&SyncError::MalformedEnvelope), 418);
}
