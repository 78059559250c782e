//! Binary/buffer bridge: converts between engine-owned byte sequences
//! and host-owned binary terms. Outbound payloads are copied into a
//! fresh host-owned buffer (the engine's buffer lifetime is independent
//! of the host's memory management and must never be aliased across the
//! boundary); inbound payloads are borrowed for the duration of the
//! call, never copied.

use vstd::prelude::*;

verus! {

/// A host-runtime binary term: an opaque byte sequence owned by the
/// host side of the boundary. Keys and values cross the boundary as
/// these; no interpretation or encoding is imposed on the bytes.
#[derive(Debug, Clone, PartialEq, Eq)]
pub struct Bin {
    bytes: Vec<u8>,
}

impl View for Bin {
    type V = Seq<u8>;

    closed spec fn view(&self) -> Seq<u8> {
        self.bytes@
    }
}

/// Encodes an engine-owned byte sequence as a host-owned binary term,
/// copying it into a newly allocated buffer. A zero-length sequence
/// round-trips as a zero-length binary, not as an absence value.
pub fn encode(bytes: &[u8]) -> (term: Bin)
    ensures
        term@ == bytes@,
{
    let mut out: Vec<u8> = Vec::new();
    let mut i: usize = 0;
    while i < bytes.len()
        invariant
            i <= bytes@.len(),
            out@ == bytes@.subrange(0, i as int),
        decreases bytes@.len() - i,
    {
        out.push(bytes[i]);
        i = i + 1;
        assert(out@ == bytes@.subrange(0, i as int));
    }
    assert(out@ == bytes@.subrange(0, bytes@.len() as int));
    assert(bytes@.subrange(0, bytes@.len() as int) =~= bytes@);
    Bin { bytes: out }
}

/// Decodes a host binary term into a byte slice for engine
/// consumption: a borrow bounded by the call, with no copy. Together
/// with `encode`'s postcondition this gives the round trip: for every
/// byte sequence, empty included, decoding an encoding yields the
/// original bytes.
pub fn decode(term: &Bin) -> (bytes: &[u8])
    ensures
        bytes@ == term@,
{
    term.bytes.as_slice()
}

/// Round trip: encoding any byte sequence, the empty one included, and
/// decoding the result yields the original bytes. The premises are
/// exactly what `encode` and `decode` ensure of their results.
pub proof fn lemma_encode_decode_round_trip(bytes: Seq<u8>, term: Seq<u8>, decoded: Seq<u8>)
    requires
        term == bytes,
        decoded == term,
    ensures
        decoded == bytes,
{
}

/// Builds a binary term directly from an owned buffer the host side
/// already holds, without another copy.
pub fn bin_from_vec(bytes: Vec<u8>) -> (term: Bin)
    ensures
        term@ == bytes@,
{
    Bin { bytes }
}

} // verus!
