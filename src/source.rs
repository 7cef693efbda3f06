use std::sync::Arc;
use vstd::prelude::*;

verus! {

/// The bytes of one loaded `.at3` file, behind shared ownership.
///
/// Clones share one buffer, which is never written after construction.
pub struct Atrac3pSource {
    pub bytes: Arc<Vec<u8>>,
}

impl View for Atrac3pSource {
    type V = Seq<u8>;

    /// The whole buffer, as a sequence of bytes.
    open spec fn view(&self) -> Seq<u8> {
        self.bytes@
    }
}

impl Atrac3pSource {
    /// Takes ownership of `bytes` and shares them; never fails.
    pub fn new(bytes: Vec<u8>) -> (r: Atrac3pSource)
        ensures
            r@ == bytes@,
    {
        Atrac3pSource { bytes: Arc::new(bytes) }
    }

    /// A read-only view of the full buffer.
    pub fn as_ref(&self) -> (r: &[u8])
        ensures
            r@ == self@,
    {
        self.bytes.as_slice()
    }
}

impl Clone for Atrac3pSource {
    /// Another handle on the same buffer; no byte is copied.
    fn clone(&self) -> (r: Atrac3pSource)
        ensures
            r@ == self@,
    {
        Atrac3pSource { bytes: self.bytes.clone() }
    }
}

impl AsRef<[u8]> for Atrac3pSource {
    fn as_ref(&self) -> &[u8] {
        Atrac3pSource::as_ref(self)
    }
}

} // verus!
