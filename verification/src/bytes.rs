//! Native-endian byte encoding of 16-bit integers, as the wire format uses it.
use vstd::prelude::*;
use vstd::endian::{endianness, Endian};

verus! {

/// Little-endian bytes of `x`.
pub open spec fn le_u16_bytes(x: u16) -> Seq<u8> {
    seq![(x % 256) as u8, (x / 256) as u8]
}

/// Big-endian bytes of `x`.
pub open spec fn be_u16_bytes(x: u16) -> Seq<u8> {
    seq![(x / 256) as u8, (x % 256) as u8]
}

/// The bytes of `x` in the byte order of the machine that runs the code.
pub open spec fn ne_u16_bytes(x: u16) -> Seq<u8> {
    match endianness() {
        Endian::Little => le_u16_bytes(x),
        Endian::Big => be_u16_bytes(x),
    }
}

/// The integer that two bytes hold in the byte order of the machine.
pub open spec fn ne_u16_value(b0: u8, b1: u8) -> u16 {
    match endianness() {
        Endian::Little => (b0 + 256 * b1) as u16,
        Endian::Big => (256 * b0 + b1) as u16,
    }
}

/// Calls `u16::to_ne_bytes`: its documentation gives the integer's memory
/// representation in native byte order, which is one of the two orders.
#[verifier::external_body]
pub(crate) fn u16_to_ne_bytes(x: u16) -> (b: [u8; 2])
    ensures
        b@ == ne_u16_bytes(x),
{
    x.to_ne_bytes()
}

/// Calls `u16::from_ne_bytes`: the integer whose native-order memory
/// representation the two bytes are.
#[verifier::external_body]
pub(crate) fn u16_from_ne_bytes(b: [u8; 2]) -> (x: u16)
    ensures
        x == ne_u16_value(b@[0], b@[1]),
{
    u16::from_ne_bytes(b)
}

/// Appends the native-order bytes of `x`.
pub(crate) fn push_u16_ne(out: &mut Vec<u8>, x: u16)
    ensures
        final(out)@ == old(out)@ + ne_u16_bytes(x),
{
    let b = u16_to_ne_bytes(x);
    out.push(b[0]);
    out.push(b[1]);
    assert(final(out)@ =~= old(out)@ + ne_u16_bytes(x));
}

/// Appends every byte of `bytes`, in order.
pub(crate) fn push_all(out: &mut Vec<u8>, bytes: &[u8])
    ensures
        final(out)@ == old(out)@ + bytes@,
{
    let ghost start = out@;
    let mut i: usize = 0;
    while i < bytes.len()
        invariant
            i <= bytes@.len(),
            out@ == start + bytes@.take(i as int),
        decreases bytes@.len() - i,
    {
        out.push(bytes[i]);
        i = i + 1;
        assert(out@ =~= start + bytes@.take(i as int));
    }
    assert(bytes@.take(i as int) =~= bytes@);
}

/// Reading back the native-order bytes of an integer gives the integer.
pub proof fn lemma_ne_u16_roundtrip(x: u16)
    ensures
        ne_u16_bytes(x).len() == 2,
        ne_u16_value(ne_u16_bytes(x)[0], ne_u16_bytes(x)[1]) == x,
{
}

} // verus!
