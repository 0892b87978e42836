//! The per-connection session: two ciphertext path buffers, the callback
//! bridge the engine pulls and pushes ciphertext through, and the decisions
//! the async adapter takes at every poll step.
//!
//! The session is sans-io: a driving loop performs the transport reads,
//! writes and engine invocations, and reports each outcome here. Every
//! decision — retry, suspend, complete, fail — is taken by a verified
//! function of this module.
//!
//! Four ghost byte streams record the session's history: `received` (all
//! ciphertext the transport delivered), `delivered` (all ciphertext the
//! engine pulled through the read callback), `produced` (all ciphertext the
//! engine pushed through the write callback) and `sent` (all ciphertext the
//! transport accepted). The invariant [`SessionView::inv`] ties each buffer
//! to its two streams, which is exactly the no-loss, no-duplication,
//! no-reorder guarantee of both paths.

use vstd::prelude::*;

use crate::buffer::{take_count, ByteQueue};
use crate::codes::WOLFSSL_CBIO_ERR_WANT_READ;
use crate::engine::EngineStatus;
use crate::errors::{AdapterError, FatalKind};

verus! {

/// Upper bound of one protocol record on the wire, used by drivers to size
/// their transport read chunks: the encoded record plaintext may not exceed
/// two to the fourteenth plus one octets.
pub const TLS_MAX_RECORD_SIZE: usize = 16385;

/// Lifecycle of a session. Terminal states are absorbing: every operation
/// on a closed or failed session reports the same terminal classification.
#[derive(Clone, Copy, Debug, PartialEq, Eq, Structural)]
pub enum SessionState {
    /// Operations proceed.
    Open,
    /// A shutdown completed: close-notify fully on the wire, transport shut
    /// down.
    Closed,
    /// A transport or protocol failure, kept with its original
    /// classification.
    Failed(FatalKind),
}

/// The error an operation on a session in state `s` reports when `s` is
/// terminal.
pub open spec fn terminal_error(s: SessionState) -> AdapterError {
    match s {
        SessionState::Open => AdapterError::SessionClosed,
        SessionState::Closed => AdapterError::SessionClosed,
        SessionState::Failed(k) => k.as_error(),
    }
}

/// The mathematical state of a session: the visible machine state, the two
/// path buffers, and the four ciphertext stream histories.
#[verifier::ext_equal]
pub struct SessionView {
    /// Lifecycle state.
    pub state: SessionState,
    /// Ciphertext received from the transport, not yet pulled by the engine.
    pub read_buf: Seq<u8>,
    /// Ciphertext pushed by the engine, not yet accepted by the transport.
    pub write_buf: Seq<u8>,
    /// The plaintext byte count of the one in-flight write, until its
    /// ciphertext is fully drained.
    pub pending_write: Option<usize>,
    /// Whether the engine's close-notification path has run.
    pub close_notify_sent: bool,
    /// Every ciphertext byte the transport delivered, in order.
    pub received: Seq<u8>,
    /// Every ciphertext byte the engine pulled through the read callback.
    pub delivered: Seq<u8>,
    /// Every ciphertext byte the engine pushed through the write callback.
    pub produced: Seq<u8>,
    /// Every ciphertext byte the transport accepted, in order.
    pub sent: Seq<u8>,
}

impl SessionView {
    /// Both paths account for every byte exactly once: what the engine has
    /// pulled plus what still waits is exactly what arrived, and what the
    /// transport has accepted plus what still waits is exactly what the
    /// engine pushed. FIFO order throughout.
    pub open spec fn inv(self) -> bool {
        &&& self.delivered + self.read_buf == self.received
        &&& self.sent + self.write_buf == self.produced
    }
}

/// What the read callback hands the engine.
#[derive(Debug)]
pub enum CallbackRead {
    /// The oldest buffered ciphertext, at most as much as the engine asked
    /// for.
    Data(Vec<u8>),
    /// The read path buffer is empty: would block, never an error and never
    /// a blocking wait.
    WouldBlock,
}

/// What the driving loop must do after an engine read or handshake
/// invocation.
#[derive(Clone, Copy, Debug, PartialEq, Eq, Structural)]
pub enum EngineDirective {
    /// The engine completed with this byte count: finish the operation.
    Complete(usize),
    /// The engine wants more transport progress and the last poll made
    /// some: poll the transport again now.
    Retry,
    /// The engine wants more transport progress and the last poll made
    /// none: suspend until the transport wakes the task. Never busy-loop.
    Suspend,
    /// The engine failed: the session is now terminal with this
    /// classification.
    Fail(FatalKind),
}

/// What a write call may do next, decided before anything is touched.
#[derive(Clone, Copy, Debug, PartialEq, Eq, Structural)]
pub enum WriteGate {
    /// No ciphertext is draining: hand the plaintext to the engine now.
    InvokeEngine,
    /// Ciphertext from an earlier invocation is still draining: drain it;
    /// no new plaintext is accepted yet.
    DrainFirst,
    /// The call is rejected with this error and nothing changes.
    Rejected(AdapterError),
}

/// The outcome of one transport write during a drain.
#[derive(Clone, Copy, Debug, PartialEq, Eq, Structural)]
pub enum DrainOutcome {
    /// The write buffer emptied and an in-flight write of this plaintext
    /// byte count is now complete: report it to the caller.
    WriteComplete(usize),
    /// The write buffer emptied; no write was in flight.
    Drained,
    /// Bytes remain but the transport accepted some: try again now.
    Progress,
    /// Bytes remain and the transport accepted none: suspend. Never
    /// busy-loop on zero progress.
    Suspend,
}

/// What a shutdown call must do next.
#[derive(Clone, Copy, Debug, PartialEq, Eq, Structural)]
pub enum ShutdownGate {
    /// Run the engine's close-notification path.
    InvokeEngine,
    /// Close-notification ciphertext is still draining: drain it.
    Drain,
    /// Everything the engine produced — the close-notification included —
    /// is on the wire: shut the transport down.
    TransportShutdown,
    /// The session is already closed.
    AlreadyClosed,
    /// The session failed earlier; the same classification is reported.
    Rejected(AdapterError),
}

/// One secure session: the engine-facing buffer pair and the adapter's
/// bookkeeping. Exclusively owned by one driving loop.
pub struct WolfSslSession {
    state: SessionState,
    read_buf: ByteQueue,
    write_buf: ByteQueue,
    pending_write: Option<usize>,
    close_notify_sent: bool,
    received: Ghost<Seq<u8>>,
    delivered: Ghost<Seq<u8>>,
    produced: Ghost<Seq<u8>>,
    sent: Ghost<Seq<u8>>,
}

impl View for WolfSslSession {
    type V = SessionView;

    closed spec fn view(&self) -> SessionView {
        SessionView {
            state: self.state,
            read_buf: self.read_buf@,
            write_buf: self.write_buf@,
            pending_write: self.pending_write,
            close_notify_sent: self.close_notify_sent,
            received: self.received@,
            delivered: self.delivered@,
            produced: self.produced@,
            sent: self.sent@,
        }
    }
}

impl WolfSslSession {
    /// The view of a freshly created session: open, both buffers empty, no
    /// write in flight, no history.
    pub open spec fn spec_fresh() -> SessionView {
        SessionView {
            state: SessionState::Open,
            read_buf: Seq::<u8>::empty(),
            write_buf: Seq::<u8>::empty(),
            pending_write: None,
            close_notify_sent: false,
            received: Seq::<u8>::empty(),
            delivered: Seq::<u8>::empty(),
            produced: Seq::<u8>::empty(),
            sent: Seq::<u8>::empty(),
        }
    }

    /// A fresh session.
    pub fn new() -> (r: WolfSslSession)
        ensures
            r@ == WolfSslSession::spec_fresh(),
            r@.inv(),
    {
        let r = WolfSslSession {
            state: SessionState::Open,
            read_buf: ByteQueue::new(),
            write_buf: ByteQueue::new(),
            pending_write: None,
            close_notify_sent: false,
            received: Ghost(Seq::empty()),
            delivered: Ghost(Seq::empty()),
            produced: Ghost(Seq::empty()),
            sent: Ghost(Seq::empty()),
        };
        proof {
            assert(r@.delivered + r@.read_buf =~= r@.received);
            assert(r@.sent + r@.write_buf =~= r@.produced);
        }
        r
    }

    /// The lifecycle state.
    pub fn state(&self) -> (r: SessionState)
        ensures
            r == self@.state,
    {
        self.state
    }

    /// The in-flight write's plaintext byte count, if one is draining.
    pub fn pending_write(&self) -> (r: Option<usize>)
        ensures
            r == self@.pending_write,
    {
        self.pending_write
    }

    /// Whether the engine's close-notification path has run.
    pub fn close_notify_sent(&self) -> (r: bool)
        ensures
            r == self@.close_notify_sent,
    {
        self.close_notify_sent
    }

    /// Ciphertext bytes waiting for the engine on the read path.
    pub fn read_buffered(&self) -> (r: usize)
        ensures
            r == self@.read_buf.len(),
    {
        self.read_buf.len()
    }

    /// Ciphertext bytes not yet accepted by the transport: zero exactly
    /// when a flush is complete.
    pub fn remaining(&self) -> (r: usize)
        ensures
            r == self@.write_buf.len(),
    {
        self.write_buf.len()
    }

    /// Gate every operation passes first: proceed while open, otherwise
    /// fail immediately with the terminal classification, unchanged since
    /// the session became terminal.
    pub fn check_open(&self) -> (r: Result<(), AdapterError>)
        ensures
            self@.state is Open <==> r == Ok::<(), AdapterError>(()),
            !(self@.state is Open) ==> r == Err::<(), AdapterError>(terminal_error(self@.state)),
    {
        match self.state {
            SessionState::Open => Ok(()),
            SessionState::Closed => Err(AdapterError::SessionClosed),
            SessionState::Failed(k) => Err(k.to_error()),
        }
    }

    /// The transport delivered `data`: append it to the read path buffer,
    /// tail side, nothing reordered or dropped.
    pub fn on_transport_data(&mut self, data: &[u8])
        requires
            old(self)@.inv(),
            old(self)@.state is Open,
            old(self)@.read_buf.len() + data@.len() <= isize::MAX as int,
        ensures
            final(self)@.inv(),
            final(self)@ == (SessionView {
                read_buf: old(self)@.read_buf + data@,
                received: old(self)@.received + data@,
                ..old(self)@
            }),
    {
        self.received = Ghost(self.received@ + data@);
        self.read_buf.append(data);
        proof {
            assert(self@.delivered + self@.read_buf =~= self@.received);
        }
    }

    /// The read callback: the engine asks for up to `max` bytes. Hands out
    /// the oldest buffered ciphertext, at most `max` of it; reports
    /// would-block when the buffer is empty, never blocking the thread.
    pub fn read_request(&mut self, max: usize) -> (r: CallbackRead)
        requires
            old(self)@.inv(),
            old(self)@.state is Open,
        ensures
            final(self)@.inv(),
            old(self)@.read_buf.len() == 0 ==> (r is WouldBlock && final(self)@ == old(self)@),
            old(self)@.read_buf.len() > 0 ==> (r matches CallbackRead::Data(d)
                && d@ == old(self)@.read_buf.take(take_count(old(self)@.read_buf, max as int))
                && final(self)@ == (SessionView {
                    read_buf: old(self)@.read_buf.skip(take_count(old(self)@.read_buf, max as int)),
                    delivered: old(self)@.delivered + old(self)@.read_buf.take(
                        take_count(old(self)@.read_buf, max as int),
                    ),
                    ..old(self)@
                })),
    {
        if self.read_buf.is_empty() {
            CallbackRead::WouldBlock
        } else {
            let d = self.read_buf.take_up_to(max);
            self.delivered = Ghost(self.delivered@ + d@);
            proof {
                assert(self@.delivered + self@.read_buf =~= old(self)@.delivered + old(self)@.read_buf);
            }
            CallbackRead::Data(d)
        }
    }

    /// The write callback: the engine supplies a ciphertext chunk. All of
    /// it is appended to the write path buffer and all of it is reported
    /// consumed — the engine has no partial-completion concept on write.
    pub fn write_chunk(&mut self, chunk: &[u8]) -> (n: usize)
        requires
            old(self)@.inv(),
            old(self)@.state is Open,
            old(self)@.write_buf.len() + chunk@.len() <= isize::MAX as int,
        ensures
            final(self)@.inv(),
            n == chunk@.len(),
            final(self)@ == (SessionView {
                write_buf: old(self)@.write_buf + chunk@,
                produced: old(self)@.produced + chunk@,
                ..old(self)@
            }),
    {
        self.produced = Ghost(self.produced@ + chunk@);
        self.write_buf.append(chunk);
        proof {
            assert(self@.sent + self@.write_buf =~= self@.produced);
        }
        chunk.len()
    }

    /// Classifies what an engine read or handshake invocation came back
    /// with. Would-block is transient: it retries while the transport makes
    /// progress and suspends the moment it does not — zero progress never
    /// busy-loops. Any other engine error is protocol-fatal and the session
    /// becomes terminal with that code.
    pub fn on_engine_result(&mut self, transport_progress: bool, status: EngineStatus) -> (d:
        EngineDirective)
        requires
            old(self)@.inv(),
            old(self)@.state is Open,
        ensures
            final(self)@.inv(),
            status matches EngineStatus::Done(n) ==> (d == EngineDirective::Complete(n) && final(self)@ == old(self)@),
            (status is WouldBlock && transport_progress) ==> (d == EngineDirective::Retry && final(self)@ == old(self)@),
            (status is WouldBlock && !transport_progress) ==> (d == EngineDirective::Suspend
                && final(self)@ == old(self)@),
            status matches EngineStatus::Fatal(c) ==> (d == EngineDirective::Fail(
                FatalKind::Protocol(c),
            ) && final(self)@ == (SessionView {
                state: SessionState::Failed(FatalKind::Protocol(c)),
                ..old(self)@
            })),
    {
        match status {
            EngineStatus::Done(n) => EngineDirective::Complete(n),
            EngineStatus::WouldBlock => {
                if transport_progress {
                    EngineDirective::Retry
                } else {
                    EngineDirective::Suspend
                }
            },
            EngineStatus::Fatal(c) => {
                self.state = SessionState::Failed(FatalKind::Protocol(c));
                EngineDirective::Fail(FatalKind::Protocol(c))
            },
        }
    }

    /// Decides what a write call of `len` plaintext bytes may do, touching
    /// nothing. While an earlier write's ciphertext is draining, only the
    /// identically-shaped retry is accepted, and it may only drain — new
    /// plaintext is rejected as a caller error. The engine is handed
    /// plaintext only when the write path is completely idle.
    pub fn begin_write(&self, len: usize) -> (g: WriteGate)
        ensures
            !(self@.state is Open) ==> g == WriteGate::Rejected(terminal_error(self@.state)),
            self@.state is Open ==> (self@.pending_write matches Some(k) ==> (if len == k {
                g == WriteGate::DrainFirst
            } else {
                g == WriteGate::Rejected(AdapterError::WriteInProgress)
            })),
            (self@.state is Open && self@.pending_write is None && self@.write_buf.len() > 0)
                ==> g == WriteGate::DrainFirst,
            (self@.state is Open && self@.pending_write is None && self@.write_buf.len() == 0)
                ==> g == WriteGate::InvokeEngine,
    {
        match self.check_open() {
            Err(e) => WriteGate::Rejected(e),
            Ok(()) => {
                match self.pending_write {
                    Some(k) => {
                        if len == k {
                            WriteGate::DrainFirst
                        } else {
                            WriteGate::Rejected(AdapterError::WriteInProgress)
                        }
                    },
                    None => {
                        if self.write_buf.len() > 0 {
                            WriteGate::DrainFirst
                        } else {
                            WriteGate::InvokeEngine
                        }
                    },
                }
            },
        }
    }

    /// Records what the engine's encrypt invocation for a write of `len`
    /// plaintext bytes came back with. On success the plaintext is consumed
    /// by the engine, irreversibly, so the write becomes the one in-flight
    /// write: its byte count is not reported to the caller until the
    /// ciphertext it produced has fully drained. Would-block changes
    /// nothing; any other engine error is protocol-fatal.
    pub fn after_engine_write(&mut self, len: usize, status: EngineStatus) -> (r: Result<
        (),
        AdapterError,
    >)
        requires
            old(self)@.inv(),
            old(self)@.state is Open,
            old(self)@.pending_write is None,
        ensures
            final(self)@.inv(),
            status is Done ==> (r == Ok::<(), AdapterError>(()) && final(self)@ == (SessionView {
                pending_write: Some(len),
                ..old(self)@
            })),
            status is WouldBlock ==> (r == Ok::<(), AdapterError>(()) && final(self)@ == old(self)@),
            status matches EngineStatus::Fatal(c) ==> (r == Err::<(), AdapterError>(
                AdapterError::Protocol(c),
            ) && final(self)@ == (SessionView {
                state: SessionState::Failed(FatalKind::Protocol(c)),
                ..old(self)@
            })),
    {
        match status {
            EngineStatus::Done(_) => {
                self.pending_write = Some(len);
                Ok(())
            },
            EngineStatus::WouldBlock => Ok(()),
            EngineStatus::Fatal(c) => {
                self.state = SessionState::Failed(FatalKind::Protocol(c));
                Err(AdapterError::Protocol(c))
            },
        }
    }

    /// The undrained ciphertext, head first: what the next transport write
    /// should offer.
    pub fn pending_ciphertext(&self) -> (r: Vec<u8>)
        ensures
            r@ == self@.write_buf,
    {
        self.write_buf.peek_all()
    }

    /// The transport accepted the first `n` offered bytes: they move from
    /// the write path buffer to the wire, head first. When the buffer
    /// empties, the in-flight write (if any) completes with its original
    /// byte count; while bytes remain, the drain retries on progress and
    /// suspends on zero progress.
    pub fn on_transport_wrote(&mut self, n: usize) -> (d: DrainOutcome)
        requires
            old(self)@.inv(),
            old(self)@.state is Open,
            n <= old(self)@.write_buf.len(),
        ensures
            final(self)@.inv(),
            final(self)@ == (SessionView {
                write_buf: old(self)@.write_buf.skip(n as int),
                sent: old(self)@.sent + old(self)@.write_buf.take(n as int),
                pending_write: final(self)@.pending_write,
                ..old(self)@
            }),
            old(self)@.write_buf.len() == n ==> (old(self)@.pending_write matches Some(k) ==> (d
                == DrainOutcome::WriteComplete(k) && final(self)@.pending_write is None)),
            (old(self)@.write_buf.len() == n && old(self)@.pending_write is None) ==> (d
                == DrainOutcome::Drained && final(self)@.pending_write is None),
            old(self)@.write_buf.len() > n ==> (final(self)@.pending_write == old(self)@.pending_write && (if n > 0 {
                d == DrainOutcome::Progress
            } else {
                d == DrainOutcome::Suspend
            })),
    {
        self.sent = Ghost(self.sent@ + self.write_buf@.take(n as int));
        self.write_buf.consume(n);
        proof {
            assert(self@.sent + self@.write_buf =~= old(self)@.sent + old(self)@.write_buf);
        }
        if self.write_buf.is_empty() {
            match self.pending_write {
                Some(k) => {
                    self.pending_write = None;
                    DrainOutcome::WriteComplete(k)
                },
                None => DrainOutcome::Drained,
            }
        } else if n > 0 {
            DrainOutcome::Progress
        } else {
            DrainOutcome::Suspend
        }
    }

    /// The transport failed with `code`: the session becomes terminal,
    /// transport-fatal, and the returned error carries the original code.
    pub fn on_transport_error(&mut self, code: i64) -> (e: AdapterError)
        requires
            old(self)@.inv(),
            old(self)@.state is Open,
        ensures
            final(self)@.inv(),
            e == AdapterError::Transport(code),
            final(self)@ == (SessionView {
                state: SessionState::Failed(FatalKind::Transport(code)),
                ..old(self)@
            }),
    {
        self.state = SessionState::Failed(FatalKind::Transport(code));
        AdapterError::Transport(code)
    }

    /// Decides what a shutdown call must do next, touching nothing. The
    /// order is fixed: first the engine's close-notification path, then a
    /// full drain of the ciphertext it produced, and only then — with the
    /// write path buffer empty — the transport's own shutdown.
    pub fn begin_shutdown(&self) -> (g: ShutdownGate)
        ensures
            self@.state matches SessionState::Failed(k) ==> g == ShutdownGate::Rejected(
                k.as_error(),
            ),
            self@.state is Closed ==> g == ShutdownGate::AlreadyClosed,
            (self@.state is Open && !self@.close_notify_sent) ==> g == ShutdownGate::InvokeEngine,
            (self@.state is Open && self@.close_notify_sent && self@.write_buf.len() > 0)
                ==> g == ShutdownGate::Drain,
            (self@.state is Open && self@.close_notify_sent && self@.write_buf.len() == 0)
                ==> g == ShutdownGate::TransportShutdown,
    {
        match self.state {
            SessionState::Failed(k) => ShutdownGate::Rejected(k.to_error()),
            SessionState::Closed => ShutdownGate::AlreadyClosed,
            SessionState::Open => {
                if !self.close_notify_sent {
                    ShutdownGate::InvokeEngine
                } else if self.write_buf.len() > 0 {
                    ShutdownGate::Drain
                } else {
                    ShutdownGate::TransportShutdown
                }
            },
        }
    }

    /// Records what the engine's close-notification invocation came back
    /// with. On success the close-notification ciphertext now sits in the
    /// write path buffer (pushed through the write callback during the
    /// call); would-block changes nothing; any other engine error is
    /// protocol-fatal.
    pub fn after_engine_shutdown(&mut self, status: EngineStatus) -> (r: Result<(), AdapterError>)
        requires
            old(self)@.inv(),
            old(self)@.state is Open,
        ensures
            final(self)@.inv(),
            status is Done ==> (r == Ok::<(), AdapterError>(()) && final(self)@ == (SessionView {
                close_notify_sent: true,
                ..old(self)@
            })),
            status is WouldBlock ==> (r == Ok::<(), AdapterError>(()) && final(self)@ == old(self)@),
            status matches EngineStatus::Fatal(c) ==> (r == Err::<(), AdapterError>(
                AdapterError::Protocol(c),
            ) && final(self)@ == (SessionView {
                state: SessionState::Failed(FatalKind::Protocol(c)),
                ..old(self)@
            })),
    {
        match status {
            EngineStatus::Done(_) => {
                self.close_notify_sent = true;
                Ok(())
            },
            EngineStatus::WouldBlock => Ok(()),
            EngineStatus::Fatal(c) => {
                self.state = SessionState::Failed(FatalKind::Protocol(c));
                Err(AdapterError::Protocol(c))
            },
        }
    }

    /// The transport's own shutdown completed. Only reachable once the
    /// close-notification ran and every produced ciphertext byte is on the
    /// wire; the session is then closed for good.
    pub fn on_transport_shutdown(&mut self)
        requires
            old(self)@.inv(),
            old(self)@.state is Open,
            old(self)@.close_notify_sent,
            old(self)@.write_buf.len() == 0,
        ensures
            final(self)@.inv(),
            final(self)@ == (SessionView { state: SessionState::Closed, ..old(self)@ }),
    {
        self.state = SessionState::Closed;
    }
}

/// The return-code convention of the engine's read callback: the byte
/// count for handed-out data, the would-block sentinel for an empty read
/// path buffer — never a blocking wait, never an error.
pub fn callback_read_code(r: &CallbackRead) -> (c: i32)
    requires
        r matches CallbackRead::Data(d) ==> d@.len() <= i32::MAX,
    ensures
        r matches CallbackRead::Data(d) ==> c == d@.len(),
        r is WouldBlock ==> c == WOLFSSL_CBIO_ERR_WANT_READ,
{
    match r {
        CallbackRead::Data(d) => d.len() as i32,
        CallbackRead::WouldBlock => WOLFSSL_CBIO_ERR_WANT_READ,
    }
}

/// Law of the read path: whatever the chunk boundaries of transport
/// delivery and of the engine's piecemeal callback pulls, the engine
/// consumes exactly the arrival stream — the bytes it has pulled so far are
/// precisely the first `delivered.len()` bytes the transport delivered, in
/// order, with the rest still buffered.
pub proof fn lemma_engine_sees_arrival_stream(v: SessionView)
    requires
        v.inv(),
    ensures
        v.delivered + v.read_buf == v.received,
        v.delivered == v.received.take(v.delivered.len() as int),
{
    assert(v.received.take(v.delivered.len() as int) =~= v.delivered);
}

/// Law of the write path: the wire never diverges from what the engine
/// produced. What the transport has accepted is always exactly a prefix of
/// the produced ciphertext stream — no byte duplicated, dropped or
/// reordered — and the remainder is exactly what still waits in the write
/// path buffer. While a write is in flight its retries may only drain, so
/// the prefix stays exact across them.
pub proof fn lemma_wire_is_prefix_of_produced(v: SessionView)
    requires
        v.inv(),
    ensures
        v.sent + v.write_buf == v.produced,
        v.sent == v.produced.take(v.sent.len() as int),
{
    assert(v.produced.take(v.sent.len() as int) =~= v.sent);
}

/// Law of drain completion: however small the steps the transport accepted
/// — one byte per call is enough — once the write path buffer is empty,
/// every ciphertext byte the engine ever produced has been accepted by the
/// transport, in order and exactly once.
pub proof fn lemma_drained_means_all_sent(v: SessionView)
    requires
        v.inv(),
        v.write_buf.len() == 0,
    ensures
        v.sent == v.produced,
{
    assert(v.sent + v.write_buf =~= v.sent);
}

/// Law of shutdown ordering: in the one state from which the transport's
/// own shutdown may be invoked — close-notification run, write path buffer
/// empty — the close-notification ciphertext, with everything else the
/// engine produced, is already on the wire.
pub proof fn lemma_close_notify_precedes_transport_shutdown(v: SessionView)
    requires
        v.inv(),
        v.close_notify_sent,
        v.write_buf.len() == 0,
    ensures
        v.sent == v.produced,
{
    lemma_drained_means_all_sent(v);
}

} // verus!
