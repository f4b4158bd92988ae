//! The closed set of failures that the client core reports.

use vstd::prelude::*;

verus! {

/// The six classes into which every failure falls.
#[derive(Debug, Clone, Copy, PartialEq, Eq, Structural)]
pub enum ErrorClass {
    /// The backend address could not be used.
    Configuration,
    /// The backend refused the credentials or the token.
    Authentication,
    /// The account exists already, or does not exist.
    Conflict,
    /// The exchange with the backend did not follow the protocol.
    Protocol,
    /// Key derivation or authenticated decryption failed.
    Cryptographic,
    /// No HTTP response was obtained at all.
    Network,
}

/// A failure of one operation of the client core.
#[derive(Debug, Clone, Copy, PartialEq, Eq, Structural)]
pub enum SyncError {
    /// The backend address is no URL.
    InvalidBackendUrl,
    /// Every liveness probe of the backend address failed.
    UnreachableBackend,
    /// HTTP 401: wrong credentials, or an expired or invalid token.
    Unauthorized,
    /// HTTP 409 on registration: the account exists already.
    AccountExists,
    /// HTTP 404 on login: no such account.
    UnknownAccount,
    /// HTTP 400: the backend found the request malformed.
    MalformedRequest,
    /// HTTP 500: the backend failed.
    BackendFault,
    /// A status code that the operation does not provide for.
    UnexpectedStatus(u16),
    /// A success response without the field that the operation needs.
    MalformedReply,
    /// An envelope that is not base64.
    MalformedEnvelope,
    /// A vault that is not JSON.
    MalformedVault,
    /// The memory-hard hash could not be computed or did not verify. Fatal.
    KeyDerivation,
    /// The vault is too large to be sealed.
    Encryption,
    /// The envelope failed authentication: wrong key, corruption or tampering.
    Decryption,
    /// The transport failed before any HTTP response arrived.
    Network,
}

impl SyncError {
    /// The class of this failure.
    pub open spec fn class_of(self) -> ErrorClass {
        match self {
            SyncError::InvalidBackendUrl | SyncError::UnreachableBackend => {
                ErrorClass::Configuration
            },
            SyncError::Unauthorized => ErrorClass::Authentication,
            SyncError::AccountExists | SyncError::UnknownAccount => ErrorClass::Conflict,
            SyncError::MalformedRequest
            | SyncError::BackendFault
            | SyncError::UnexpectedStatus(_)
            | SyncError::MalformedReply
            | SyncError::MalformedEnvelope
            | SyncError::MalformedVault => ErrorClass::Protocol,
            SyncError::KeyDerivation | SyncError::Encryption | SyncError::Decryption => {
                ErrorClass::Cryptographic
            },
            SyncError::Network => ErrorClass::Network,
        }
    }

    /// Whether the process must end after this failure. Only a failed key
    /// derivation is fatal; every other failure is left to the caller.
    pub open spec fn fatal(self) -> bool {
        self == SyncError::KeyDerivation
    }

    /// The class of this failure.
    pub fn class(&self) -> (class: ErrorClass)
        ensures
            class == self.class_of(),
    {
        match self {
            SyncError::InvalidBackendUrl => ErrorClass::Configuration,
            SyncError::UnreachableBackend => ErrorClass::Configuration,
            SyncError::Unauthorized => ErrorClass::Authentication,
            SyncError::AccountExists => ErrorClass::Conflict,
            SyncError::UnknownAccount => ErrorClass::Conflict,
            SyncError::MalformedRequest => ErrorClass::Protocol,
            SyncError::BackendFault => ErrorClass::Protocol,
            SyncError::UnexpectedStatus(_) => ErrorClass::Protocol,
            SyncError::MalformedReply => ErrorClass::Protocol,
            SyncError::MalformedEnvelope => ErrorClass::Protocol,
            SyncError::MalformedVault => ErrorClass::Protocol,
            SyncError::KeyDerivation => ErrorClass::Cryptographic,
            SyncError::Encryption => ErrorClass::Cryptographic,
            SyncError::Decryption => ErrorClass::Cryptographic,
            SyncError::Network => ErrorClass::Network,
        }
    }

    /// Whether the process must end after this failure.
    pub fn is_fatal(&self) -> (fatal: bool)
        ensures
            fatal == self.fatal(),
            fatal ==> self.class_of() == ErrorClass::Cryptographic,
    {
        match self {
            SyncError::KeyDerivation => true,
            _ => false,
        }
    }

    /// The exit code of a process that ends on this failure: 1 for a fatal
    /// failure, 0 for one after which the user chose to leave.
    pub fn exit_code(&self) -> (code: i32)
        ensures
            code == if self.fatal() { 1i32 } else { 0i32 },
    {
        if self.is_fatal() {
            1
        } else {
            0
        }
    }
}

} // verus!
