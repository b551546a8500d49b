use vstd::prelude::*;

verus! {

/// Type-level flag: the capability is enabled.
pub struct Tru;

/// Type-level flag: the capability is disabled.
pub struct Fls;

/// Owned byte buffer that carries a payload across the thread boundary.
///
/// The blocking side copies its buffer into a carrier, the executor works on the
/// carrier, and the blocking side copies the result back. Nothing is shared, so
/// no aliasing or lifetime obligation falls on either side.
#[derive(Debug)]
pub struct Carrier {
    bytes: Vec<u8>,
}

impl View for Carrier {
    type V = Seq<u8>;

    closed spec fn view(&self) -> Seq<u8> {
        self.bytes@
    }
}

impl Carrier {
    /// Wraps an owned buffer.
    pub fn new(bytes: Vec<u8>) -> (r: Carrier)
        ensures
            r@ == bytes@,
    {
        Carrier { bytes }
    }

    /// Copies the bytes of `buf` into a fresh carrier.
    pub fn copy_of(buf: &[u8]) -> (r: Carrier)
        ensures
            r@ == buf@,
    {
        let mut bytes: Vec<u8> = Vec::new();
        let mut i: usize = 0;
        while i < buf.len()
            invariant
                i <= buf@.len(),
                bytes@ == buf@.subrange(0, i as int),
            decreases buf@.len() - i,
        {
            bytes.push(buf[i]);
            i = i + 1;
            assert(bytes@ =~= buf@.subrange(0, i as int));
        }
        assert(bytes@ =~= buf@);
        Carrier { bytes }
    }

    /// Number of bytes carried.
    pub fn len(&self) -> (r: usize)
        ensures
            r == self@.len(),
    {
        self.bytes.len()
    }

    /// The carried bytes.
    pub fn as_ref(&self) -> (r: &[u8])
        ensures
            r@ == self@,
    {
        self.bytes.as_slice()
    }

    /// Gives the carried buffer back.
    pub fn into_inner(self) -> (r: Vec<u8>)
        ensures
            r@ == self@,
    {
        self.bytes
    }
}

} // verus!
