//! The configuration side of the engine boundary: the protocol method a
//! context is built for, the context that sessions are created from, and
//! the typed outcomes of the engine's process-wide initialization and
//! cleanup.
//!
//! A context carries shared, read-mostly configuration and may outlive and
//! serve many sessions; each session it creates starts fresh and is owned
//! by exactly one adapter.

use vstd::prelude::*;

use crate::codes::{BAD_MUTEX_E, WC_INIT_E, WOLFSSL_SUCCESS};
use crate::session::WolfSslSession;

verus! {

/// Why the engine's process-wide initialization failed.
#[derive(Clone, Copy, Debug, PartialEq, Eq, Structural)]
pub enum InitError {
    /// The engine could not take its global mutex.
    Mutex,
    /// The crypto core failed to initialize.
    WolfCrypt,
}

/// Why the engine's process-wide cleanup failed.
#[derive(Clone, Copy, Debug, PartialEq, Eq, Structural)]
pub enum CleanupError {
    /// The engine could not take its global mutex.
    Mutex,
}

/// Interprets the status the engine's process-wide initialization reports.
/// The engine documents exactly three outcomes; any other code is out of
/// contract for that routine.
pub fn init(status: i32) -> (r: Result<(), InitError>)
    requires
        status == WOLFSSL_SUCCESS || status == BAD_MUTEX_E || status == WC_INIT_E,
    ensures
        r == Ok::<(), InitError>(()) <==> status == WOLFSSL_SUCCESS,
        status == BAD_MUTEX_E ==> r == Err::<(), InitError>(InitError::Mutex),
        status == WC_INIT_E ==> r == Err::<(), InitError>(InitError::WolfCrypt),
{
    if status == WOLFSSL_SUCCESS {
        Ok(())
    } else if status == BAD_MUTEX_E {
        Err(InitError::Mutex)
    } else {
        Err(InitError::WolfCrypt)
    }
}

/// Interprets the status the engine's process-wide cleanup reports. The
/// engine documents exactly two outcomes.
pub fn cleanup(status: i32) -> (r: Result<(), CleanupError>)
    requires
        status == WOLFSSL_SUCCESS || status == BAD_MUTEX_E,
    ensures
        r == Ok::<(), CleanupError>(()) <==> status == WOLFSSL_SUCCESS,
        status == BAD_MUTEX_E ==> r == Err::<(), CleanupError>(CleanupError::Mutex),
{
    if status == WOLFSSL_SUCCESS {
        Ok(())
    } else {
        Err(CleanupError::Mutex)
    }
}

/// The protocol methods a context can be configured with.
#[derive(Clone, Copy, Debug, PartialEq, Eq, Structural)]
pub enum WolfSslMethod {
    DtlsClient,
    DtlsClientV1_2,
    DtlsClientV1_3,
    DtlsServer,
    DtlsServerV1_2,
    DtlsServerV1_3,
    SslClientV23,
    SslServerV23,
    TlsClient,
    TlsClientV1_2,
    TlsClientV1_3,
    TlsServer,
    TlsServerV1_2,
    TlsServerV1_3,
}

/// Shared per-connection-family configuration: the protocol method every
/// session created from this context will run.
pub struct WolfSslContext {
    method: WolfSslMethod,
}

impl WolfSslContext {
    /// The method this context was built for.
    pub closed spec fn spec_method(&self) -> WolfSslMethod {
        self.method
    }

    /// Builds a context configured for `method`.
    pub fn new(method: WolfSslMethod) -> (r: Option<WolfSslContext>)
        ensures
            r matches Some(c) && c.spec_method() == method,
    {
        Some(WolfSslContext { method })
    }

    /// The method this context was built for.
    pub fn method(&self) -> (r: WolfSslMethod)
        ensures
            r == self.spec_method(),
    {
        self.method
    }

    /// Creates a fresh session: open, with empty path buffers, no write in
    /// flight and no close-notification sent.
    pub fn create_session(&self) -> (r: Option<WolfSslSession>)
        ensures
            r matches Some(s) && s@ == WolfSslSession::spec_fresh(),
    {
        Some(WolfSslSession::new())
    }
}

} // verus!
