//! The boundary's string representation: a byte sequence free of the
//! terminator byte, followed by one terminator.
use vstd::prelude::*;
use vstd::string::*;
use vstd::utf8::*;

verus! {

/// The byte that ends a string at the boundary.
pub const TERMINATOR: u8 = 0;

/// The text holds a terminator byte, so it has no boundary representation.
#[derive(Debug, Clone, Copy, PartialEq, Eq)]
pub struct EncodingError {
    /// Byte offset of the first terminator byte in the text.
    pub position: usize,
}

/// True when `b` holds no terminator byte.
pub open spec fn terminator_free(b: Seq<u8>) -> bool {
    forall|i: int| 0 <= i < b.len() ==> b[i] != TERMINATOR
}

/// Offset of the first terminator byte of `b`, which must hold one.
pub open spec fn first_terminator(b: Seq<u8>) -> int
    recommends
        !terminator_free(b),
{
    choose|i: int|
        0 <= i < b.len() && b[i] == TERMINATOR && terminator_free(#[trigger] b.take(i))
}

/// The boundary form of the bytes `b`: the bytes, then one terminator.
pub open spec fn terminated(b: Seq<u8>) -> Seq<u8> {
    b.push(TERMINATOR)
}

/// What the boundary reads from a buffer: the bytes before its first
/// terminator, or the whole buffer where it holds none.
pub open spec fn is_read_prefix(r: Seq<u8>, buf: Seq<u8>) -> bool {
    &&& r.len() <= buf.len()
    &&& r == buf.take(r.len() as int)
    &&& terminator_free(r)
    &&& (r.len() == buf.len() || buf[r.len() as int] == TERMINATOR)
}

/// Converts `text` to its boundary form.
///
/// Fails, with the offset of the first terminator byte, exactly when the
/// text's bytes hold a terminator.
pub fn encode_terminated(text: &str) -> (r: Result<Vec<u8>, EncodingError>)
    ensures
        r is Ok <==> terminator_free(text.spec_bytes()),
        r matches Ok(v) ==> v@ == terminated(text.spec_bytes()),
        r matches Err(e) ==> e.position == first_terminator(text.spec_bytes()),
{
    let bytes = text.as_bytes();
    let mut out: Vec<u8> = Vec::new();
    let mut i: usize = 0;
    while i < bytes.len()
        invariant
            bytes@ == text.spec_bytes(),
            i <= bytes@.len(),
            out@ == bytes@.take(i as int),
            terminator_free(out@),
        decreases bytes@.len() - i,
    {
        if bytes[i] == TERMINATOR {
            proof {
                let p = first_terminator(bytes@);
                assert(bytes@.take(i as int) == out@);
                assert(0 <= p < bytes@.len() && bytes@[p] == TERMINATOR
                    && terminator_free(bytes@.take(p))) by {
                    assert(terminator_free(bytes@.take(i as int)));
                }
                if p < i {
                    assert(bytes@.take(i as int)[p] == TERMINATOR);
                } else if p > i {
                    assert(bytes@.take(p)[i as int] == TERMINATOR);
                }
            }
            return Err(EncodingError { position: i });
        }
        out.push(bytes[i]);
        i = i + 1;
        assert(out@ == bytes@.take(i as int));
    }
    assert(out@ == bytes@);
    out.push(TERMINATOR);
    Ok(out)
}

/// Relies on `String::from_utf8`: it succeeds exactly on well-formed UTF-8,
/// and the text then holds the characters that the bytes encode.
#[verifier::external_body]
fn utf8_text(bytes: Vec<u8>) -> (r: Option<String>)
    ensures
        r is Some <==> valid_utf8(bytes@),
        r matches Some(s) ==> s@ == decode_utf8(bytes@),
{
    String::from_utf8(bytes).ok()
}

/// The bytes before the first terminator of `buf`, or all of it where it
/// holds none.
pub fn read_prefix(buf: &[u8]) -> (r: Vec<u8>)
    ensures
        is_read_prefix(r@, buf@),
{
    let mut out: Vec<u8> = Vec::new();
    let mut i: usize = 0;
    while i < buf.len()
        invariant
            i <= buf@.len(),
            out@ == buf@.take(i as int),
            terminator_free(out@),
        decreases buf@.len() - i,
    {
        if buf[i] == TERMINATOR {
            return out;
        }
        out.push(buf[i]);
        i = i + 1;
        assert(out@ == buf@.take(i as int));
    }
    assert(buf@.take(i as int) == buf@);
    out
}

/// The bytes that the boundary reads from `buf`.
pub open spec fn read_of(buf: Seq<u8>) -> Seq<u8>
    decreases buf.len(),
{
    if buf.len() == 0 {
        buf
    } else if buf[0] == TERMINATOR {
        Seq::empty()
    } else {
        seq![buf[0]] + read_of(buf.drop_first())
    }
}

/// The text that the boundary string at the start of `buf` encodes, or
/// `None` where its bytes are not well-formed UTF-8.
pub open spec fn text_of(buf: Seq<u8>) -> Option<Seq<char>> {
    if valid_utf8(read_of(buf)) {
        Some(decode_utf8(read_of(buf)))
    } else {
        None
    }
}

/// The characters of an optional text.
pub open spec fn opt_chars(r: Option<String>) -> Option<Seq<char>> {
    match r {
        Some(s) => Some(s@),
        None => None,
    }
}

/// `read_of` is what the boundary reads.
pub proof fn lemma_read_of(buf: Seq<u8>)
    ensures
        is_read_prefix(read_of(buf), buf),
    decreases buf.len(),
{
    if buf.len() > 0 && buf[0] != TERMINATOR {
        let t = buf.drop_first();
        lemma_read_of(t);
        let r = read_of(buf);
        assert(r == seq![buf[0]] + read_of(t));
        assert(read_of(t) == t.take(read_of(t).len() as int));
        assert(r =~= buf.take(r.len() as int)) by {
            assert forall|i: int| 0 <= i < r.len() implies r[i] == buf[i] by {
                if i > 0 {
                    assert(r[i] == read_of(t)[i - 1]);
                    assert(t.take(read_of(t).len() as int)[i - 1] == t[i - 1]);
                }
            }
        }
        assert forall|i: int| 0 <= i < r.len() implies r[i] != TERMINATOR by {
            if i > 0 {
                assert(r[i] == read_of(t)[i - 1]);
            }
        }
        if r.len() < buf.len() {
            assert(buf[r.len() as int] == t[read_of(t).len() as int]);
        }
    } else if buf.len() > 0 {
        assert(read_of(buf).len() == 0);
        assert(read_of(buf) =~= buf.take(0));
    } else {
        assert(buf =~= buf.take(0));
    }
}

/// The text that the boundary string at the start of `buf` encodes, or
/// `None` where its bytes are not well-formed UTF-8.
pub fn decode_terminated(buf: &[u8]) -> (r: Option<String>)
    ensures
        opt_chars(r) == text_of(buf@),
{
    let bytes = read_prefix(buf);
    proof {
        lemma_read_of(buf@);
        lemma_read_prefix_unique(read_of(buf@), bytes@, buf@);
    }
    utf8_text(bytes)
}

/// A buffer has one read prefix.
pub proof fn lemma_read_prefix_unique(p: Seq<u8>, q: Seq<u8>, buf: Seq<u8>)
    requires
        is_read_prefix(p, buf),
        is_read_prefix(q, buf),
    ensures
        p == q,
{
    if p.len() < q.len() {
        assert(q[p.len() as int] == buf[p.len() as int]);
    } else if q.len() < p.len() {
        assert(p[q.len() as int] == buf[q.len() as int]);
    }
}

/// Decoding the boundary form of a text gives the text back.
pub proof fn lemma_round_trip(text: &str)
    requires
        terminator_free(text.spec_bytes()),
    ensures
        text_of(terminated(text.spec_bytes())) == Some(text@),
{
    let b = text.spec_bytes();
    assert(terminated(b).take(b.len() as int) == b);
    lemma_read_of(terminated(b));
    lemma_read_prefix_unique(read_of(terminated(b)), b, terminated(b));
    encode_utf8_valid_utf8(text@);
    encode_utf8_decode_utf8(text@);
}

} // verus!
