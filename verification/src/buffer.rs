//! Output byte sinks of an earlier surface: one byte at a time to
//! standard output, with different flushing policies.

use vstd::prelude::*;

use crate::ioctx::{stdout_flush, stdout_write_all};

verus! {

/// A sink that takes output one byte at a time.
pub trait Buffer {
    /// Write one byte to the sink.  A failure of the underlying stream
    /// is swallowed: a diagnostic sink has nowhere to report it.
    fn put_byte(&self, byte: u8);
}

/// A sink that writes each byte to standard output and flushes after
/// every byte.
#[derive(Debug, PartialEq)]
pub struct ASCIICharBuffer {}

impl Buffer for ASCIICharBuffer {
    fn put_byte(&self, byte: u8) {
        let one = vec![byte];
        let _ = stdout_write_all(one.as_slice());
        let _ = stdout_flush();
    }
}

/// A sink that writes each byte to standard output and flushes only at
/// the end of a line.
#[derive(Debug, PartialEq)]
pub struct ASCIILineBuffer {}

impl Buffer for ASCIILineBuffer {
    fn put_byte(&self, byte: u8) {
        let one = vec![byte];
        let _ = stdout_write_all(one.as_slice());
        // 10 is the line feed byte
        if byte == 10 {
            let _ = stdout_flush();
        }
    }
}

/// A sink that would gather bytes into whole UTF-8 sequences before
/// printing them; the gathering buffer is the state it would need.
#[derive(Debug, PartialEq)]
pub struct UTF8CharBuffer {
    /// The bytes of an incomplete UTF-8 sequence.
    pub buffer: Vec<u8>,
}

/// A sink that would write to a file.
#[derive(Debug, PartialEq)]
pub struct FileBuffer {}

} // verus!
