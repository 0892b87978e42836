//! Model of the secure-channel engine's boundary: the protocol methods a
//! context can be built for, and the translation of the engine's raw return
//! codes into typed outcomes. The engine itself (handshake, record layer,
//! crypto) is an external collaborator; this crate only interprets what it
//! reports.

use vstd::prelude::*;

use crate::codes::{
    BAD_MUTEX_E, WC_INIT_E, WOLFSSL_ERROR_WANT_READ, WOLFSSL_ERROR_WANT_WRITE, WOLFSSL_SUCCESS,
};
use crate::errors::{WolfCleanupError, WolfInitError};

verus! {

/// The protocol methods the engine can be asked for.
#[derive(Clone, Copy, Debug, PartialEq, Eq, Structural)]
pub enum WolfMethod {
    DtlsClient,
    DtlsClientV1_2,
    DtlsClientV1_3,
    DtlsServer,
    DtlsServerV1_2,
    DtlsServerV1_3,
    TlsClient,
    TlsClientV1_2,
    TlsClientV1_3,
    TlsServer,
    TlsServerV1_2,
    TlsServerV1_3,
}

/// The outcome of one engine invocation (handshake step, decrypt, encrypt
/// or close-notify), after its raw return code has been interpreted.
#[derive(Clone, Copy, Debug, PartialEq, Eq, Structural)]
pub enum EngineStatus {
    /// The call succeeded and reports this byte count (plaintext produced
    /// for a read, plaintext consumed for a write, zero for a handshake
    /// step or a close-notify).
    Done(usize),
    /// The call needs transport progress before it can complete: more
    /// inbound ciphertext, or room for outbound ciphertext. Transient,
    /// never a failure.
    WouldBlock,
    /// The call failed with this engine code: protocol-fatal.
    Fatal(i64),
}

/// The typed outcome for an engine call that returned `ret`, where `err` is
/// the detail code the engine reports for non-positive returns.
pub open spec fn engine_status_of(ret: i32, err: i32) -> EngineStatus {
    if ret > 0 {
        EngineStatus::Done(ret as usize)
    } else if err == WOLFSSL_ERROR_WANT_READ || err == WOLFSSL_ERROR_WANT_WRITE {
        EngineStatus::WouldBlock
    } else {
        EngineStatus::Fatal(err as i64)
    }
}

/// Interprets an engine call's raw return value. A positive return is the
/// byte count of a completed call; otherwise the detail code decides
/// between would-block (the retry driver) and a protocol-fatal failure.
pub fn interpret_engine_return(ret: i32, err: i32) -> (r: EngineStatus)
    ensures
        r == engine_status_of(ret, err),
{
    if ret > 0 {
        EngineStatus::Done(ret as usize)
    } else if err == WOLFSSL_ERROR_WANT_READ || err == WOLFSSL_ERROR_WANT_WRITE {
        EngineStatus::WouldBlock
    } else {
        EngineStatus::Fatal(err as i64)
    }
}

/// Interprets the status the engine's process-wide initialization reports.
/// The engine documents exactly three outcomes; any other code is out of
/// contract for that routine.
pub fn wolf_init(status: i32) -> (r: Result<(), WolfInitError>)
    requires
        status == WOLFSSL_SUCCESS || status == BAD_MUTEX_E || status == WC_INIT_E,
    ensures
        r == Ok::<(), WolfInitError>(()) <==> status == WOLFSSL_SUCCESS,
        status == BAD_MUTEX_E ==> r == Err::<(), WolfInitError>(WolfInitError::Mutex),
        status == WC_INIT_E ==> r == Err::<(), WolfInitError>(WolfInitError::WolfCrypt),
{
    if status == WOLFSSL_SUCCESS {
        Ok(())
    } else if status == BAD_MUTEX_E {
        Err(WolfInitError::Mutex)
    } else {
        Err(WolfInitError::WolfCrypt)
    }
}

/// Interprets the status the engine's process-wide cleanup reports. The
/// engine documents exactly two outcomes.
pub fn wolf_cleanup(status: i32) -> (r: Result<(), WolfCleanupError>)
    requires
        status == WOLFSSL_SUCCESS || status == BAD_MUTEX_E,
    ensures
        r == Ok::<(), WolfCleanupError>(()) <==> status == WOLFSSL_SUCCESS,
        status == BAD_MUTEX_E ==> r == Err::<(), WolfCleanupError>(WolfCleanupError::Mutex),
{
    if status == WOLFSSL_SUCCESS {
        Ok(())
    } else {
        Err(WolfCleanupError::Mutex)
    }
}

} // verus!
