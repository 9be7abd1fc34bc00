//! Byte-stream building blocks of an earlier I/O surface: a
//! standard-stream context, a byte-queue buffer, and the two-queue mock
//! context built from it.
//!
//! The [`ioctx`](crate::ioctx) module carries the capability interface
//! the engine runs against; the types here are the freestanding pieces,
//! kept for callers that want a plain queue or mock without the trait.

use vstd::prelude::*;

use crate::ioctx::{IoError, drain_front, push_back_all, stdin_read, stdout_flush,
    stdout_write_all};

verus! {

/// A context on the process's standard streams: reads come from
/// standard input and writes go to standard output.
pub struct StdIOContext {}

impl StdIOContext {
    /// A context on the process's standard streams.
    pub fn new() -> (r: Self)
        ensures
            true,
    {
        StdIOContext {}
    }

    /// Read up to `max_bytes` bytes from standard input.
    pub fn read(&mut self, max_bytes: usize) -> (r: Result<Vec<u8>, IoError>)
        ensures
            r matches Ok(v) ==> v@.len() <= max_bytes,
    {
        stdin_read(max_bytes)
    }

    /// Write the whole buffer to standard output.
    pub fn write(&mut self, buf: &[u8]) -> (r: Result<usize, IoError>)
        ensures
            r matches Ok(n) ==> n == buf@.len(),
    {
        match stdout_write_all(buf) {
            Ok(()) => Ok(buf.len()),
            Err(e) => Err(e),
        }
    }

    /// Flush standard output.
    pub fn flush(&mut self) -> (r: Result<(), IoError>) {
        stdout_flush()
    }
}

/// A byte queue: writes append at the back, reads drain from the front.
pub struct ByteBuf {
    /// The queued bytes, oldest first.
    pub buf: Vec<u8>,
}

impl Default for ByteBuf {
    /// An empty queue.
    fn default() -> (r: Self)
        ensures
            r.buf@ == Seq::<u8>::empty(),
    {
        ByteBuf { buf: Vec::new() }
    }
}

impl ByteBuf {
    /// Read up to `max_bytes` bytes from the front of the queue,
    /// draining them.
    pub fn read(&mut self, max_bytes: usize) -> (v: Vec<u8>)
        ensures
            v@.len() == if old(self).buf@.len() <= max_bytes as nat {
                old(self).buf@.len()
            } else {
                max_bytes as nat
            },
            v@ == old(self).buf@.take(v@.len() as int),
            final(self).buf@ == old(self).buf@.skip(v@.len() as int),
    {
        drain_front(&mut self.buf, max_bytes)
    }

    /// Append the whole buffer at the back of the queue.
    pub fn write(&mut self, buf: &[u8]) -> (n: usize)
        ensures
            n == buf@.len(),
            final(self).buf@ == old(self).buf@ + buf@,
    {
        push_back_all(&mut self.buf, buf);
        buf.len()
    }

    /// A queue needs no flushing; the contents are unchanged.
    pub fn flush(&mut self)
        ensures
            *final(self) == *old(self),
    {
    }
}

/// A mock context for tests and other non-interactive callers: reads
/// come from one in-memory queue and writes go to another.
pub struct MockIOContext {
    /// The queue reads are served from.
    pub input: ByteBuf,
    /// The queue writes are collected in.
    pub output: ByteBuf,
}

impl MockIOContext {
    /// A mock context with both queues empty.
    pub fn new() -> (r: Self)
        ensures
            r.input.buf@ == Seq::<u8>::empty(),
            r.output.buf@ == Seq::<u8>::empty(),
    {
        MockIOContext { input: ByteBuf { buf: Vec::new() }, output: ByteBuf { buf: Vec::new() } }
    }

    /// Read up to `max_bytes` bytes from the input queue, draining
    /// them.
    pub fn read(&mut self, max_bytes: usize) -> (v: Vec<u8>)
        ensures
            v@.len() == if old(self).input.buf@.len() <= max_bytes as nat {
                old(self).input.buf@.len()
            } else {
                max_bytes as nat
            },
            v@ == old(self).input.buf@.take(v@.len() as int),
            final(self).input.buf@ == old(self).input.buf@.skip(v@.len() as int),
            final(self).output == old(self).output,
    {
        self.input.read(max_bytes)
    }

    /// Append the whole buffer to the output queue.
    pub fn write(&mut self, buf: &[u8]) -> (n: usize)
        ensures
            n == buf@.len(),
            final(self).output.buf@ == old(self).output.buf@ + buf@,
            final(self).input == old(self).input,
    {
        self.output.write(buf)
    }

    /// The queues need no flushing; the contents are unchanged.
    pub fn flush(&mut self)
        ensures
            *final(self) == *old(self),
    {
    }
}

} // verus!
