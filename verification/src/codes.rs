//! Return-code conventions of the secure-channel engine's C API, as this
//! crate models them at its boundary. The adapter never interprets a raw
//! code directly: the functions in [`crate::engine`] and [`crate::ssl`]
//! translate codes into typed results, and these named values are the only
//! place the numbers appear.

use vstd::prelude::*;

verus! {

/// The engine reports success.
pub const WOLFSSL_SUCCESS: i32 = 1;

/// The engine reports plain failure.
pub const WOLFSSL_FAILURE: i32 = 0;

/// Initialization or cleanup could not take the engine's global mutex.
pub const BAD_MUTEX_E: i32 = -106;

/// The crypto core failed to initialize.
pub const WC_INIT_E: i32 = -229;

/// The engine needs more inbound ciphertext before it can make progress.
pub const WOLFSSL_ERROR_WANT_READ: i32 = 2;

/// The engine needs the transport to accept outbound ciphertext first.
pub const WOLFSSL_ERROR_WANT_WRITE: i32 = 3;

/// Sentinel the read callback hands the engine when the read path buffer is
/// empty: would block, never an error.
pub const WOLFSSL_CBIO_ERR_WANT_READ: i32 = -2;

/// Certificate material had an unknown encoding.
pub const WOLFSSL_BAD_FILETYPE: i32 = -5;

/// Certificate material could not be read.
pub const WOLFSSL_BAD_FILE: i32 = -4;

/// The engine ran out of memory.
pub const MEMORY_E: i32 = -125;

/// A buffer handed to the engine was too small.
pub const BUFFER_E: i32 = -132;

/// Certificate parsing failed on its input.
pub const ASN_INPUT_E: i32 = -154;

/// A certificate is not yet valid.
pub const ASN_BEFORE_DATE_E: i32 = -150;

/// A certificate has expired.
pub const ASN_AFTER_DATE_E: i32 = -151;

/// A certificate path was not usable.
pub const BAD_PATH_ERROR: i32 = -190;

} // verus!
