//! Diagnostics that the engine reports, and the copy of their messages.
use vstd::prelude::*;
use crate::boundary::{decode_terminated, opt_chars, text_of};
use crate::session::Holding;

verus! {

/// One diagnostic of the engine: its kind code and its line (1-based).
///
/// The engine lends the record to a callback only for the callback's
/// duration, so the library works on this copy of it.
#[derive(Debug, Clone, Copy)]
pub struct TErrorInfo {
    m_type: libc::c_uint,
    m_line: libc::size_t,
}

impl View for TErrorInfo {
    type V = (u32, usize);

    closed spec fn view(&self) -> (u32, usize) {
        (self.m_type, self.m_line)
    }
}

impl TErrorInfo {
    /// A copy of the record with kind code `kind` and line `line`.
    pub fn new(kind: libc::c_uint, line: libc::size_t) -> (r: Self)
        ensures
            r@ == (kind, line),
    {
        TErrorInfo { m_type: kind, m_line: line }
    }

    /// The line of the diagnostic.
    pub fn get_line(&self) -> (r: usize)
        ensures
            r == self@.1,
    {
        self.m_line
    }

    /// The kind code of the diagnostic, which the engine resolves to its
    /// message.
    pub fn get_kind(&self) -> (r: libc::c_uint)
        ensures
            r == self@.0,
    {
        self.m_type
    }
}

/// The message string that the engine allocated for one resolution of a
/// kind code.
///
/// The copy of its text must happen while the string is live, and the string
/// is released exactly once afterwards, whether or not the copy succeeded.
#[derive(Debug, Clone, Copy)]
pub struct MessageLease {
    pub buffer: Holding,
    /// Whether the text was copied out.
    pub copied: bool,
}

impl MessageLease {
    /// The lease on a string that the engine has just allocated.
    pub fn resolved() -> (r: Self)
        ensures
            r.buffer == Holding::Live,
            !r.copied,
    {
        MessageLease { buffer: Holding::Live, copied: false }
    }

    /// Copies the message out of the engine's string, whose bytes start
    /// `raw`: `None` where they are not well-formed UTF-8. The string stays
    /// live, to be released.
    pub fn copy_out(&mut self, raw: &[u8]) -> (r: Option<String>)
        requires
            old(self).buffer == Holding::Live,
        ensures
            (*final(self), opt_chars(r)) == after_copy(*old(self), raw@),
            final(self).buffer == Holding::Live,
            opt_chars(r) == text_of(raw@),
    {
        self.copied = true;
        decode_terminated(raw)
    }

    /// Releases the engine's string, which is then to be freed once.
    pub fn release(&mut self)
        requires
            old(self).buffer == Holding::Live,
        ensures
            *final(self) == after_release(*old(self)),
    {
        self.buffer = Holding::Freed;
    }
}

/// The lease after its text was copied out of `raw`, with what the copy gave.
pub open spec fn after_copy(l: MessageLease, raw: Seq<u8>) -> (MessageLease, Option<Seq<char>>) {
    (MessageLease { copied: true, ..l }, text_of(raw))
}

/// The lease after its string was released.
pub open spec fn after_release(l: MessageLease) -> MessageLease {
    MessageLease { buffer: Holding::Freed, ..l }
}

/// One resolution: a fresh lease whose text is copied out of `raw` and which
/// is then released.
pub open spec fn resolution(raw: Seq<u8>) -> (MessageLease, Option<Seq<char>>) {
    let copy = after_copy(MessageLease { buffer: Holding::Live, copied: false }, raw);
    (after_release(copy.0), copy.1)
}

/// Resolving a kind code twice, where the engine hands the same bytes each
/// time, copies the same message both times; and each resolution releases
/// its string after the copy, whether or not the copy succeeded.
pub proof fn lemma_resolution_repeats(first: Seq<u8>, second: Seq<u8>)
    requires
        first == second,
    ensures
        resolution(first).1 == resolution(second).1,
        resolution(first).1 == text_of(first),
        resolution(first).0.buffer == Holding::Freed,
        resolution(first).0.copied,
        resolution(second).0.buffer == Holding::Freed,
        resolution(second).0.copied,
{
}

} // verus!
