//! Error taxonomy of the adapter and of the engine boundary.
//!
//! Transient conditions (would-block, needs-more-data) never appear here:
//! they drive the adapter's retry loops and are absorbed internally. What
//! does appear is kept classified — transport failures, protocol failures,
//! caller contract violations and use after close stay distinct all the way
//! to the caller.

use vstd::prelude::*;

use crate::codes::{
    ASN_AFTER_DATE_E, ASN_BEFORE_DATE_E, ASN_INPUT_E, BAD_PATH_ERROR, BUFFER_E, MEMORY_E,
    WOLFSSL_BAD_FILE, WOLFSSL_BAD_FILETYPE, WOLFSSL_FAILURE,
};

verus! {

/// Why the engine's process-wide initialization failed.
#[derive(Clone, Copy, Debug, PartialEq, Eq, Structural)]
pub enum WolfInitError {
    /// The engine could not take its global mutex.
    Mutex,
    /// The crypto core failed to initialize.
    WolfCrypt,
}

/// Why the engine's process-wide cleanup failed.
#[derive(Clone, Copy, Debug, PartialEq, Eq, Structural)]
pub enum WolfCleanupError {
    /// The engine could not take its global mutex.
    Mutex,
}

/// Why loading trust roots into a context failed.
#[derive(Clone, Copy, Debug, PartialEq, Eq, Structural)]
pub enum LoadRootCertificateError {
    /// Plain failure.
    Failure,
    /// Unknown certificate encoding.
    BadFiletype,
    /// Unreadable certificate material.
    BadFile,
    /// The engine ran out of memory.
    Memory,
    /// Certificate parsing failed.
    AsnInput,
    /// A certificate is not yet valid.
    AsnBeforeDate,
    /// A certificate has expired.
    AsnAfterDate,
    /// A buffer was too small.
    Buffer,
    /// A certificate path was not usable.
    Path,
    /// A code outside the documented set, kept as reported.
    Other(i64),
}

/// The classification [`LoadRootCertificateError::from`] gives each raw
/// engine code.
pub open spec fn load_root_certificate_error_of(value: i32) -> LoadRootCertificateError {
    if value == WOLFSSL_BAD_FILETYPE {
        LoadRootCertificateError::BadFiletype
    } else if value == WOLFSSL_BAD_FILE {
        LoadRootCertificateError::BadFile
    } else if value == MEMORY_E {
        LoadRootCertificateError::Memory
    } else if value == ASN_INPUT_E {
        LoadRootCertificateError::AsnInput
    } else if value == BUFFER_E {
        LoadRootCertificateError::Buffer
    } else if value == WOLFSSL_FAILURE {
        LoadRootCertificateError::Failure
    } else if value == ASN_AFTER_DATE_E {
        LoadRootCertificateError::AsnAfterDate
    } else if value == ASN_BEFORE_DATE_E {
        LoadRootCertificateError::AsnBeforeDate
    } else if value == BAD_PATH_ERROR {
        LoadRootCertificateError::Path
    } else {
        LoadRootCertificateError::Other(value as i64)
    }
}

impl From<i32> for LoadRootCertificateError {
    /// Classifies a raw engine code from the trust-root loading routines,
    /// keeping undocumented codes as [`LoadRootCertificateError::Other`].
    fn from(value: i32) -> (r: Self) {
        if value == WOLFSSL_BAD_FILETYPE {
            Self::BadFiletype
        } else if value == WOLFSSL_BAD_FILE {
            Self::BadFile
        } else if value == MEMORY_E {
            Self::Memory
        } else if value == ASN_INPUT_E {
            Self::AsnInput
        } else if value == BUFFER_E {
            Self::Buffer
        } else if value == WOLFSSL_FAILURE {
            Self::Failure
        } else if value == ASN_AFTER_DATE_E {
            Self::AsnAfterDate
        } else if value == ASN_BEFORE_DATE_E {
            Self::AsnBeforeDate
        } else if value == BAD_PATH_ERROR {
            Self::Path
        } else {
            Self::Other(value as i64)
        }
    }
}

impl vstd::std_specs::convert::FromSpecImpl<i32> for LoadRootCertificateError {
    open spec fn obeys_from_spec() -> bool {
        true
    }

    open spec fn from_spec(v: i32) -> Self {
        load_root_certificate_error_of(v)
    }
}

/// A terminal failure, with the original classification and code kept.
#[derive(Clone, Copy, Debug, PartialEq, Eq, Structural)]
pub enum FatalKind {
    /// The transport failed (connection reset, I/O error); the code is the
    /// one the transport reported.
    Transport(i64),
    /// The engine failed (handshake, decryption, malformed record); the code
    /// is the one the engine reported.
    Protocol(i64),
}

/// What an adapter operation reports when it cannot proceed.
#[derive(Clone, Copy, Debug, PartialEq, Eq, Structural)]
pub enum AdapterError {
    /// The session failed on a transport error with this code; every later
    /// operation reports it again.
    Transport(i64),
    /// The session failed on an engine error with this code; every later
    /// operation reports it again.
    Protocol(i64),
    /// The session was closed by a completed shutdown.
    SessionClosed,
    /// A new write was issued while a previous write's ciphertext is still
    /// draining: a caller error, rejected without touching any state.
    WriteInProgress,
}

impl FatalKind {
    /// The error every operation on a session that failed with this kind
    /// reports.
    pub open spec fn as_error(self) -> AdapterError {
        match self {
            FatalKind::Transport(code) => AdapterError::Transport(code),
            FatalKind::Protocol(code) => AdapterError::Protocol(code),
        }
    }

    /// Turns the kind into the error its session keeps reporting.
    pub fn to_error(self) -> (r: AdapterError)
        ensures
            r == self.as_error(),
    {
        match self {
            FatalKind::Transport(code) => AdapterError::Transport(code),
            FatalKind::Protocol(code) => AdapterError::Protocol(code),
        }
    }
}

} // verus!
