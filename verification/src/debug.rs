//! The debug console system calls: writing text to, and reading bytes from,
//! the serial console.
//!
//! The console itself and the user memory are reached by the caller; this
//! module decides what is written and what a read hands back to user mode.

use vstd::prelude::*;
use vstd::utf8::*;
use vstd::string::*;
use crate::error::{ZxError, ZxResult};

verus! {

/// Interprets `v` as UTF-8 text with `core::str::from_utf8`.
/// Claimed of the outside code, as its documentation states: it succeeds
/// exactly on well-formed UTF-8, and the text it returns is made of the same
/// bytes.
#[verifier::external_body]
fn utf8_text(v: &[u8]) -> (r: Option<&str>)
    ensures
        r is Some <==> valid_utf8(v@),
        r matches Some(s) ==> s.spec_bytes() == v@,
{
    core::str::from_utf8(v).ok()
}

/// Write debug info to the serial port: checks that the `len` bytes read
/// from the user buffer are UTF-8 text and gives back that text for the
/// console. Bytes that are not UTF-8 are refused with `INVALID_ARGS`.
pub fn sys_debug_write(buf: &[u8]) -> (r: ZxResult<&str>)
    ensures
        r is Ok <==> valid_utf8(buf@),
        r matches Ok(text) ==> text.spec_bytes() == buf@ && text@ == decode_utf8(buf@),
        r matches Err(e) ==> e == ZxError::INVALID_ARGS,
{
    match utf8_text(buf) {
        Some(text) => {
            proof {
                encode_utf8_decode_utf8(text@);
            }
            Ok(text)
        },
        None => Err(ZxError::INVALID_ARGS),
    }
}

/// A handle value of a user process.
pub type HandleValue = u32;

/// Whether a debug read through `handle` has to validate it first, as a
/// handle to the root resource. Handle 0 reads directly, without validation.
pub fn debug_read_validates_handle(handle: HandleValue) -> (validate: bool)
    ensures
        validate == (handle != 0),
{
    handle != 0
}

/// The ASCII carriage return.
pub const CR: u8 = 0x0d;

/// The ASCII line feed.
pub const LF: u8 = 0x0a;

/// A byte as the console read hands it to user mode: a carriage return
/// becomes a line feed, every other byte is kept.
pub open spec fn console_byte(b: u8) -> u8 {
    if b == CR {
        LF
    } else {
        b
    }
}

/// The bytes a console read hands to user mode for the bytes `raw` that the
/// console delivered.
pub open spec fn console_text(raw: Seq<u8>) -> Seq<u8> {
    raw.map_values(|b: u8| console_byte(b))
}

/// Translates one byte from the console as a read hands it to user mode.
pub fn map_console_byte(b: u8) -> (r: u8)
    ensures
        r == console_byte(b),
{
    if b == CR {
        LF
    } else {
        b
    }
}

/// A console read of a fixed number of bytes in progress: the caller reads
/// the console one byte at a time and reports each read here.
pub struct DebugRead {
    len: u32,
    received: Vec<u8>,
    raw: Ghost<Seq<u8>>,
}

impl DebugRead {
    /// The number of bytes the read asks for.
    pub closed spec fn wanted(&self) -> nat {
        self.len as nat
    }

    /// The bytes delivered by the console so far.
    pub closed spec fn raw(&self) -> Seq<u8> {
        self.raw@
    }

    /// Internal consistency: the buffer holds the translation of what the
    /// console delivered, which is no more than asked for.
    pub closed spec fn wf(&self) -> bool {
        &&& self.received@ == console_text(self.raw@)
        &&& self.raw@.len() <= self.len
    }

    /// Starts a read of `len` bytes.
    pub fn new(len: u32) -> (r: Self)
        ensures
            r.wf(),
            r.wanted() == len,
            r.raw() == Seq::<u8>::empty(),
    {
        let r = DebugRead { len, received: Vec::new(), raw: Ghost(Seq::empty()) };
        assert(r.received@ =~= console_text(r.raw@));
        r
    }

    /// Whether the read still waits for a byte from the console.
    pub fn wants_byte(&self) -> (r: bool)
        requires
            self.wf(),
        ensures
            r == (self.raw().len() < self.wanted()),
    {
        self.received.len() < self.len as usize
    }

    /// Reports one console read that returned `n` bytes, `byte` among them
    /// when `n` is 1. Any other count fails the whole read with `IO`.
    pub fn push(&mut self, n: usize, byte: u8) -> (r: ZxResult)
        requires
            old(self).wf(),
            old(self).raw().len() < old(self).wanted(),
        ensures
            final(self).wf(),
            final(self).wanted() == old(self).wanted(),
            n == 1 ==> r is Ok && final(self).raw() == old(self).raw().push(byte),
            n != 1 ==> r == Err::<(), ZxError>(ZxError::IO) && final(self).raw() == old(
                self,
            ).raw(),
    {
        if n != 1 {
            return Err(ZxError::IO);
        }
        self.received.push(map_console_byte(byte));
        self.raw = Ghost(self.raw@.push(byte));
        assert(self.received@ =~= console_text(self.raw@));
        Ok(())
    }

    /// Ends a complete read: `None` for a read of zero bytes, which writes
    /// nothing back to user mode; otherwise the bytes to copy to the user
    /// buffer and the length to store in the user's length word.
    pub fn finish(self) -> (r: Option<(Vec<u8>, u32)>)
        requires
            self.wf(),
            self.raw().len() == self.wanted(),
        ensures
            self.wanted() == 0 ==> r is None,
            self.wanted() > 0 ==> (r matches Some((bytes, len)) && bytes@ == console_text(
                self.raw(),
            ) && len == self.wanted()),
    {
        if self.len == 0 {
            None
        } else {
            Some((self.received, self.len))
        }
    }
}

/// What a console read hands to user mode never holds a carriage return,
/// has one byte per byte read, and keeps every byte but carriage returns.
pub proof fn lemma_console_text(raw: Seq<u8>)
    ensures
        console_text(raw).len() == raw.len(),
        forall|i: int| 0 <= i < raw.len() ==> #[trigger] console_text(raw)[i] != CR,
        forall|i: int| 0 <= i < raw.len() && raw[i] != CR ==> #[trigger] console_text(raw)[i] == raw[i],
        forall|i: int| 0 <= i < raw.len() && raw[i] == CR ==> #[trigger] console_text(raw)[i] == LF,
        forall|i: int| 0 <= i < raw.len() ==> #[trigger] console_text(raw)[i] != 0x0d,
        forall|i: int|
            0 <= i < raw.len() ==> #[trigger] console_text(raw)[i] == if raw[i] == 0x0d {
                0x0au8
            } else {
                raw[i]
            },
{
}

/// Reading the console translates byte by byte: the text for `a + b` is the
/// text for `a` followed by the text for `b`.
pub proof fn lemma_console_text_append(a: Seq<u8>, b: Seq<u8>)
    ensures
        console_text(a + b) == console_text(a) + console_text(b),
{
    assert(console_text(a + b) =~= console_text(a) + console_text(b));
}

} // verus!
