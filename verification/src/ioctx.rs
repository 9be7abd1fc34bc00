//! I/O contexts: the capability the engine reads input bytes from and
//! writes output bytes to.
//!
//! A context offers four operations - read from the input stream, write
//! to the output stream, flush the output stream, and two optional
//! buffer-access operations used to seed the input queue and observe the
//! output queue of an in-memory context.
//!
//! The contracts are stated over two model sequences, the pending input
//! bytes and the written output bytes.  A context whose `is_modeled`
//! spec is true (the in-memory context) promises exact queue semantics;
//! the standard-stream contexts make no such promise, since nothing can
//! be known about the process's standard streams.

use vstd::prelude::*;

verus! {

/// The description of a failed I/O operation.
#[derive(Debug, Clone)]
pub struct IoError {
    /// A human-readable description of the underlying failure.
    pub message: String,
}

/// The capability interface for program I/O.
pub trait IoCtx: Sized {
    /// Whether `input_model` and `output_model` faithfully describe this
    /// context's streams.
    spec fn is_modeled() -> bool;

    /// Whether the optional buffer-access operations (`read_output`,
    /// `write_input`) are supported.  Calling them on a context that
    /// does not support them is a programmer error, ruled out by their
    /// preconditions.
    spec fn supports_buffer_access() -> bool;

    /// The bytes waiting to be read from the input stream.
    spec fn input_model(&self) -> Seq<u8>;

    /// The bytes written to the output stream so far.
    spec fn output_model(&self) -> Seq<u8>;

    /// Read up to `max_bytes` bytes from the input stream.  Fewer bytes,
    /// or none, are returned when the stream is exhausted; that is not
    /// an error.
    fn read_input(&mut self, max_bytes: usize) -> (r: Result<Vec<u8>, IoError>)
        ensures
            match r {
                Ok(v) => {
                    &&& v@.len() <= max_bytes
                    &&& Self::is_modeled() ==> {
                        &&& v@.len() == if old(self).input_model().len() <= max_bytes as nat {
                            old(self).input_model().len()
                        } else {
                            max_bytes as nat
                        }
                        &&& v@ == old(self).input_model().take(v@.len() as int)
                        &&& final(self).input_model() == old(self).input_model().skip(
                            v@.len() as int,
                        )
                        &&& final(self).output_model() == old(self).output_model()
                    }
                },
                Err(_) => !Self::is_modeled(),
            },
    ;

    /// Write all of `buf` to the output stream.
    fn write_output(&mut self, buf: &[u8]) -> (r: Result<usize, IoError>)
        ensures
            match r {
                Ok(n) => {
                    &&& n == buf@.len()
                    &&& Self::is_modeled() ==> {
                        &&& final(self).output_model() == old(self).output_model() + buf@
                        &&& final(self).input_model() == old(self).input_model()
                    }
                },
                Err(_) => !Self::is_modeled(),
            },
    ;

    /// Flush the output stream.  An implementation may or may not need
    /// to do anything when this is called.
    fn flush_output(&mut self) -> (r: Result<(), IoError>)
        ensures
            Self::is_modeled() ==> {
                &&& r is Ok
                &&& final(self).input_model() == old(self).input_model()
                &&& final(self).output_model() == old(self).output_model()
            },
    ;

    /// Read up to `max_bytes` bytes back from the output stream,
    /// draining what is read.  Supported only where
    /// `supports_buffer_access` holds.
    fn read_output(&mut self, max_bytes: usize) -> (r: Result<Vec<u8>, IoError>)
        requires
            Self::supports_buffer_access(),
        ensures
            match r {
                Ok(v) => {
                    &&& v@.len() <= max_bytes
                    &&& Self::is_modeled() ==> {
                        &&& v@.len() == if old(self).output_model().len() <= max_bytes as nat {
                            old(self).output_model().len()
                        } else {
                            max_bytes as nat
                        }
                        &&& v@ == old(self).output_model().take(v@.len() as int)
                        &&& final(self).output_model() == old(self).output_model().skip(
                            v@.len() as int,
                        )
                        &&& final(self).input_model() == old(self).input_model()
                    }
                },
                Err(_) => !Self::is_modeled(),
            },
    ;

    /// Append `buf` to the input stream, pre-loading input before a run.
    /// Supported only where `supports_buffer_access` holds.
    fn write_input(&mut self, buf: &[u8]) -> (r: Result<usize, IoError>)
        requires
            Self::supports_buffer_access(),
        ensures
            match r {
                Ok(n) => {
                    &&& n == buf@.len()
                    &&& Self::is_modeled() ==> {
                        &&& final(self).input_model() == old(self).input_model() + buf@
                        &&& final(self).output_model() == old(self).output_model()
                    }
                },
                Err(_) => !Self::is_modeled(),
            },
    ;
}

/// Read up to `n` bytes from the front of a byte queue, draining them.
pub(crate) fn drain_front(queue: &mut Vec<u8>, n: usize) -> (v: Vec<u8>)
    ensures
        v@.len() == if old(queue)@.len() <= n as nat {
            old(queue)@.len()
        } else {
            n as nat
        },
        v@ == old(queue)@.take(v@.len() as int),
        final(queue)@ == old(queue)@.skip(v@.len() as int),
{
    let count = if queue.len() <= n {
        queue.len()
    } else {
        n
    };
    let mut v: Vec<u8> = Vec::new();
    let mut i: usize = 0;
    while i < count
        invariant
            i <= count,
            count <= queue@.len(),
            v@ == queue@.take(i as int),
        decreases count - i,
    {
        v.push(queue[i]);
        i = i + 1;
    }
    let tail = queue.split_off(count);
    *queue = tail;
    proof {
        assert(final(queue)@ =~= old(queue)@.skip(count as int));
    }
    v
}

/// Append all of `buf` to the back of a byte queue.
pub(crate) fn push_back_all(queue: &mut Vec<u8>, buf: &[u8])
    ensures
        final(queue)@ == old(queue)@ + buf@,
{
    let mut i: usize = 0;
    while i < buf.len()
        invariant
            i <= buf@.len(),
            queue@ == old(queue)@ + buf@.take(i as int),
        decreases buf@.len() - i,
    {
        queue.push(buf[i]);
        proof {
            assert(old(queue)@ + buf@.take(i + 1 as int) =~= (old(queue)@ + buf@.take(
                i as int,
            )).push(buf@[i as int]));
        }
        i = i + 1;
    }
    proof {
        assert(old(queue)@ + buf@.take(buf@.len() as int) =~= old(queue)@ + buf@);
    }
}

/// An in-memory context: two independent byte queues, one seeded with
/// input for the program to read, one collecting the program's output.
///
/// This is the context behind the library's single-call "run this
/// program on these bytes and return its output" entry point, and the
/// one to use in tests.
pub struct InMemoryIoCtx {
    /// The queue of input bytes not yet read by the program.
    pub input: Vec<u8>,
    /// The queue of output bytes written by the program and not yet
    /// drained by the caller.
    pub output: Vec<u8>,
}

impl Default for InMemoryIoCtx {
    /// An in-memory context with both queues empty.
    fn default() -> (r: Self)
        ensures
            r.input@ == Seq::<u8>::empty(),
            r.output@ == Seq::<u8>::empty(),
    {
        InMemoryIoCtx { input: Vec::new(), output: Vec::new() }
    }
}

impl IoCtx for InMemoryIoCtx {
    /// The queues are the streams: the model is exact.
    open spec fn is_modeled() -> bool {
        true
    }

    open spec fn supports_buffer_access() -> bool {
        true
    }

    open spec fn input_model(&self) -> Seq<u8> {
        self.input@
    }

    open spec fn output_model(&self) -> Seq<u8> {
        self.output@
    }

    fn read_input(&mut self, max_bytes: usize) -> (r: Result<Vec<u8>, IoError>) {
        Ok(drain_front(&mut self.input, max_bytes))
    }

    fn write_output(&mut self, buf: &[u8]) -> (r: Result<usize, IoError>) {
        push_back_all(&mut self.output, buf);
        Ok(buf.len())
    }

    fn flush_output(&mut self) -> (r: Result<(), IoError>) {
        Ok(())
    }

    fn read_output(&mut self, max_bytes: usize) -> (r: Result<Vec<u8>, IoError>) {
        Ok(drain_front(&mut self.output, max_bytes))
    }

    fn write_input(&mut self, buf: &[u8]) -> (r: Result<usize, IoError>) {
        push_back_all(&mut self.input, buf);
        Ok(buf.len())
    }
}

/// Relies on std::io::Stdin::read: reads at most `max_bytes` bytes from
/// standard input into a fresh buffer; the count it returns is how many
/// bytes were read.
#[verifier::external_body]
pub(crate) fn stdin_read(max_bytes: usize) -> (r: Result<Vec<u8>, IoError>)
    ensures
        r matches Ok(v) ==> v@.len() <= max_bytes,
{
    let mut buf = vec![0u8; max_bytes];
    match std::io::Read::read(&mut std::io::stdin(), buf.as_mut_slice()) {
        Ok(n) => {
            buf.truncate(n);
            Ok(buf)
        },
        Err(e) => Err(IoError { message: format!("{}", e) }),
    }
}

/// Relies on std::io::Stdout::write_all: writes the whole buffer to
/// standard output or reports the first error.
#[verifier::external_body]
pub(crate) fn stdout_write_all(buf: &[u8]) -> (r: Result<(), IoError>) {
    match std::io::Write::write_all(&mut std::io::stdout(), buf) {
        Ok(()) => Ok(()),
        Err(e) => Err(IoError { message: format!("{}", e) }),
    }
}

/// Relies on std::io::Stdout::flush: flushes standard output.
#[verifier::external_body]
pub(crate) fn stdout_flush() -> (r: Result<(), IoError>) {
    match std::io::Write::flush(&mut std::io::stdout()) {
        Ok(()) => Ok(()),
        Err(e) => Err(IoError { message: format!("{}", e) }),
    }
}

/// The basic context for running in a terminal: input from the
/// process's standard input, output to its standard output.
///
/// Nothing is promised about the contents of the standard streams, so
/// this context is not modeled; the buffer-access operations are
/// unsupported.
pub struct StdIoCtx {}

impl Default for StdIoCtx {
    /// A context on the process's standard streams.
    fn default() -> (r: Self)
        ensures
            true,
    {
        StdIoCtx {}
    }
}

impl IoCtx for StdIoCtx {
    open spec fn is_modeled() -> bool {
        false
    }

    open spec fn supports_buffer_access() -> bool {
        false
    }

    open spec fn input_model(&self) -> Seq<u8> {
        Seq::empty()
    }

    open spec fn output_model(&self) -> Seq<u8> {
        Seq::empty()
    }

    fn read_input(&mut self, max_bytes: usize) -> (r: Result<Vec<u8>, IoError>) {
        stdin_read(max_bytes)
    }

    fn write_output(&mut self, buf: &[u8]) -> (r: Result<usize, IoError>) {
        match stdout_write_all(buf) {
            Ok(()) => Ok(buf.len()),
            Err(e) => Err(e),
        }
    }

    fn flush_output(&mut self) -> (r: Result<(), IoError>) {
        stdout_flush()
    }

    fn read_output(&mut self, _max_bytes: usize) -> (r: Result<Vec<u8>, IoError>) {
        vstd::pervasive::unreached()
    }

    fn write_input(&mut self, _buf: &[u8]) -> (r: Result<usize, IoError>) {
        vstd::pervasive::unreached()
    }
}

/// A `StdIoCtx` that flushes the output stream on every write, trading
/// throughput for immediacy; useful when output interleaves with
/// interactive prompts.
pub struct UnbufferedStdIoCtx {
    /// The buffered context whose streams are used.
    pub ctx: StdIoCtx,
}

impl Default for UnbufferedStdIoCtx {
    /// An unbuffered context on the process's standard streams.
    fn default() -> (r: Self)
        ensures
            true,
    {
        UnbufferedStdIoCtx { ctx: StdIoCtx {} }
    }
}

impl IoCtx for UnbufferedStdIoCtx {
    open spec fn is_modeled() -> bool {
        false
    }

    open spec fn supports_buffer_access() -> bool {
        false
    }

    open spec fn input_model(&self) -> Seq<u8> {
        Seq::empty()
    }

    open spec fn output_model(&self) -> Seq<u8> {
        Seq::empty()
    }

    fn read_input(&mut self, max_bytes: usize) -> (r: Result<Vec<u8>, IoError>) {
        self.ctx.read_input(max_bytes)
    }

    fn write_output(&mut self, buf: &[u8]) -> (r: Result<usize, IoError>) {
        let written = self.ctx.write_output(buf)?;
        match self.ctx.flush_output() {
            Ok(()) => Ok(written),
            Err(e) => Err(e),
        }
    }

    fn flush_output(&mut self) -> (r: Result<(), IoError>) {
        self.ctx.flush_output()
    }

    fn read_output(&mut self, _max_bytes: usize) -> (r: Result<Vec<u8>, IoError>) {
        vstd::pervasive::unreached()
    }

    fn write_input(&mut self, _buf: &[u8]) -> (r: Result<usize, IoError>) {
        vstd::pervasive::unreached()
    }
}

} // verus!
