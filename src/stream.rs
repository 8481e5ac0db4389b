//! Input streams handed to the engine to satisfy an inclusion request.
use vstd::prelude::*;
use vstd::utf8::*;
use crate::boundary::{encode_terminated, terminated, terminator_free, first_terminator, EncodingError};

verus! {

/// A source for the engine, or the null stream that declines a request.
///
/// A stream that is not null holds the boundary form of its text; the engine
/// makes its own stream object from it when the stream is handed over, and
/// owns that object from then on.
pub struct IInputStream {
    source: Option<Vec<u8>>,
}

impl View for IInputStream {
    type V = Option<Seq<u8>>;

    closed spec fn view(&self) -> Option<Seq<u8>> {
        match self.source {
            Some(v) => Some(v@),
            None => None,
        }
    }
}

impl IInputStream {
    /// The null stream: no source at all.
    pub fn null() -> (r: Self)
        ensures
            r@ is None,
    {
        IInputStream { source: None }
    }

    /// A stream over the text `value`.
    ///
    /// Fails exactly when the text holds a terminator byte; nothing is handed
    /// to the engine then.
    pub fn try_from(value: String) -> (r: Result<Self, EncodingError>)
        ensures
            r is Ok <==> terminator_free(encode_utf8(value@)),
            r matches Ok(s) ==> s@ == Some(terminated(encode_utf8(value@))),
            r matches Err(e) ==> e.position == first_terminator(encode_utf8(value@)),
    {
        match encode_terminated(value.as_str()) {
            Ok(v) => Ok(IInputStream { source: Some(v) }),
            Err(e) => Err(e),
        }
    }

    /// True for the null stream.
    pub fn is_null(&self) -> (r: bool)
        ensures
            r == (self@ is None),
    {
        self.source.is_none()
    }

    /// The boundary form of the stream's text, `None` for the null stream.
    pub fn into_source(self) -> (r: Option<Vec<u8>>)
        ensures
            r matches Some(v) ==> self@ == Some(v@),
            r is None <==> self@ is None,
    {
        self.source
    }
}

impl Default for IInputStream {
    /// The null stream.
    fn default() -> (r: Self)
        ensures
            r@ is None,
    {
        IInputStream::null()
    }
}

} // verus!
