//! Input values handed back to the fuzzing engine.

use vstd::prelude::*;

verus! {

/// An input value produced by a generator: an owned byte sequence, or a
/// structurally-wrapped variant thereof. The contract of every generator
/// speaks of the input's underlying bytes through [`Input::bytes_view`].
pub trait Input: Sized {
    /// The underlying byte sequence of this input.
    spec fn bytes_view(&self) -> Seq<u8>;
}

/// A plain byte-sequence input.
pub struct BytesInput {
    pub bytes: Vec<u8>,
}

impl Input for BytesInput {
    open spec fn bytes_view(&self) -> Seq<u8> {
        self.bytes@
    }
}

impl BytesInput {
    /// Wraps an owned byte vector as an input.
    pub fn new(bytes: Vec<u8>) -> (r: Self)
        ensures
            r.bytes_view() == bytes@,
    {
        BytesInput { bytes }
    }

    /// The bytes of this input.
    pub fn bytes(&self) -> (r: &Vec<u8>)
        ensures
            r@ == self.bytes_view(),
    {
        &self.bytes
    }
}

/// A structurally-annotated input: the same underlying bytes as a
/// [`BytesInput`], in the richer shape some consumers expect. Freshly
/// generated values carry no structural annotation yet, so this wrapper holds
/// exactly the bytes.
pub struct GeneralizedInput {
    pub bytes: Vec<u8>,
}

impl Input for GeneralizedInput {
    open spec fn bytes_view(&self) -> Seq<u8> {
        self.bytes@
    }
}

impl GeneralizedInput {
    /// Wraps an owned byte vector as a generalized input.
    pub fn new(bytes: Vec<u8>) -> (r: Self)
        ensures
            r.bytes_view() == bytes@,
    {
        GeneralizedInput { bytes }
    }

    /// The bytes of this input.
    pub fn bytes(&self) -> (r: &Vec<u8>)
        ensures
            r@ == self.bytes_view(),
    {
        &self.bytes
    }

    /// Converts a plain byte input into its generalized shape, preserving the
    /// content exactly.
    pub fn from_bytes_input(input: BytesInput) -> (r: Self)
        ensures
            r.bytes_view() == input.bytes_view(),
    {
        let BytesInput { bytes } = input;
        GeneralizedInput { bytes }
    }
}

} // verus!
