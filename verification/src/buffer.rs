//! The FIFO byte queue used on both ciphertext paths: the read path buffer
//! (transport to engine) and the write path buffer (engine to transport).
//!
//! Bytes enter only at the tail and leave only from the head, so the queue
//! never reorders and never duplicates: its view after any operation is an
//! exact concatenation or suffix of what it was before.

use vstd::prelude::*;

use crate::bytebuf::{bytes_advance, bytes_extend, bytes_head, bytes_len, bytes_new, bytes_view};

verus! {

/// How many bytes a take of at most `n` removes from a queue holding `s`:
/// `n` when that much is available, everything otherwise.
pub open spec fn take_count(s: Seq<u8>, n: int) -> int {
    if n <= s.len() {
        n
    } else {
        s.len() as int
    }
}

/// FIFO queue of ciphertext bytes. Append-only at the tail, consume-only
/// from the head.
pub struct ByteQueue {
    data: bytes::BytesMut,
}

impl View for ByteQueue {
    type V = Seq<u8>;

    closed spec fn view(&self) -> Seq<u8> {
        bytes_view(self.data)
    }
}

impl ByteQueue {
    /// A fresh, empty queue.
    pub fn new() -> (r: ByteQueue)
        ensures
            r@ == Seq::<u8>::empty(),
    {
        ByteQueue { data: bytes_new() }
    }

    /// The number of bytes waiting in the queue.
    pub fn len(&self) -> (r: usize)
        ensures
            r == self@.len(),
    {
        bytes_len(&self.data)
    }

    /// Whether nothing is waiting.
    pub fn is_empty(&self) -> (r: bool)
        ensures
            r == (self@.len() == 0),
    {
        bytes_len(&self.data) == 0
    }

    /// Appends every byte of `data` at the tail, in order.
    pub fn append(&mut self, data: &[u8])
        requires
            old(self)@.len() + data@.len() <= isize::MAX as int,
        ensures
            final(self)@ == old(self)@ + data@,
    {
        bytes_extend(&mut self.data, data);
    }

    /// Removes and returns the oldest bytes: all of them if fewer than `n`
    /// wait, the first `n` otherwise. FIFO order is kept.
    pub fn take_up_to(&mut self, n: usize) -> (r: Vec<u8>)
        ensures
            r@ == old(self)@.take(take_count(old(self)@, n as int)),
            final(self)@ == old(self)@.skip(take_count(old(self)@, n as int)),
    {
        let len = bytes_len(&self.data);
        let k = if n <= len {
            n
        } else {
            len
        };
        let out = bytes_head(&self.data, k);
        bytes_advance(&mut self.data, k);
        out
    }

    /// Copies the whole queue out, head first, without consuming it.
    pub fn peek_all(&self) -> (r: Vec<u8>)
        ensures
            r@ == self@,
    {
        let len = bytes_len(&self.data);
        let out = bytes_head(&self.data, len);
        proof {
            assert(self@.take(self@.len() as int) =~= self@);
        }
        out
    }

    /// Discards the first `n` bytes, the ones a consumer has accepted.
    pub fn consume(&mut self, n: usize)
        requires
            n <= old(self)@.len(),
        ensures
            final(self)@ == old(self)@.skip(n as int),
    {
        bytes_advance(&mut self.data, n);
    }
}

} // verus!
