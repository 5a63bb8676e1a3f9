use vstd::prelude::*;
use vstd::utf8::{decode_utf8, valid_utf8};

use crate::registers::RawCpuId;

verus! {

/// The four bytes of `x`, least significant first.
pub open spec fn le_bytes(x: u32) -> Seq<u8> {
    seq![(x & 0xFF) as u8, ((x >> 8) & 0xFF) as u8, ((x >> 16) & 0xFF) as u8, ((x >> 24) & 0xFF) as u8]
}

/// The twelve vendor bytes of leaf 0: `ebx`, then `edx`, then `ecx`.
pub open spec fn vendor_bytes(leaf: RawCpuId) -> Seq<u8> {
    le_bytes(leaf.ebx) + le_bytes(leaf.edx) + le_bytes(leaf.ecx)
}

/// A byte that stands for a printable ASCII character (space to tilde).
pub open spec fn is_printable(b: u8) -> bool {
    0x20 <= b <= 0x7E
}

/// Every byte of `bytes` is printable ASCII.
pub open spec fn all_printable(bytes: Seq<u8>) -> bool {
    forall|i: int| 0 <= i < bytes.len() ==> #[trigger] is_printable(bytes[i])
}

/// The text of a printable ASCII byte sequence: one character per byte.
pub open spec fn ascii_text(bytes: Seq<u8>) -> Seq<char> {
    bytes.map_values(|b: u8| b as char)
}

/// The vendor bytes are not printable ASCII text. `position` is the index of
/// the first byte that is not, and `byte` is that byte.
#[derive(Clone, Copy, Debug, PartialEq, Eq, Structural)]
pub struct DecodeError {
    pub position: usize,
    pub byte: u8,
}

/// Relies on `String::from_utf8`: it succeeds exactly on well-formed UTF-8,
/// and the string then holds the characters that the bytes encode.
#[verifier::external_body]
pub(crate) fn string_from_utf8(bytes: Vec<u8>) -> (r: Option<String>)
    ensures
        r is Some <==> valid_utf8(bytes@),
        r matches Some(s) ==> s@ == decode_utf8(bytes@),
{
    String::from_utf8(bytes).ok()
}

/// ASCII bytes are well-formed UTF-8, one character per byte.
pub(crate) proof fn lemma_ascii_is_utf8(bytes: Seq<u8>)
    requires
        forall|i: int| 0 <= i < bytes.len() ==> #[trigger] bytes[i] <= 0x7F,
    ensures
        valid_utf8(bytes),
        decode_utf8(bytes) == ascii_text(bytes),
    decreases bytes.len(),
{
    if bytes.len() > 0 {
        let b = bytes[0];
        let rest = bytes.subrange(1, bytes.len() as int);
        assert(b <= 0x7F);
        assert(b & 0x7F == b) by (bit_vector)
            requires
                b <= 0x7F,
        ;
        assert(vstd::utf8::pop_first_scalar(bytes) == rest);
        assert forall|i: int| 0 <= i < rest.len() implies #[trigger] rest[i] <= 0x7F by {
            assert(rest[i] == bytes[i + 1]);
        }
        lemma_ascii_is_utf8(rest);
        assert(decode_utf8(bytes) =~= ascii_text(bytes));
    } else {
        assert(decode_utf8(bytes) =~= ascii_text(bytes));
    }
}

/// Appends the four bytes of `x`, least significant first.
fn push_le_bytes(out: &mut Vec<u8>, x: u32)
    ensures
        final(out)@ == old(out)@ + le_bytes(x),
{
    out.push((x & 0xFF) as u8);
    out.push(((x >> 8) & 0xFF) as u8);
    out.push(((x >> 16) & 0xFF) as u8);
    out.push(((x >> 24) & 0xFF) as u8);
    assert(final(out)@ =~= old(out)@ + le_bytes(x));
}

/// The twelve vendor bytes of leaf 0, in the order `ebx`, `edx`, `ecx`.
pub fn vendor_byte_vec(leaf: RawCpuId) -> (r: Vec<u8>)
    ensures
        r@ == vendor_bytes(leaf),
        r@.len() == 12,
{
    let mut bytes: Vec<u8> = Vec::new();
    push_le_bytes(&mut bytes, leaf.ebx);
    push_le_bytes(&mut bytes, leaf.edx);
    push_le_bytes(&mut bytes, leaf.ecx);
    assert(bytes@ =~= vendor_bytes(leaf));
    bytes
}

} // verus!
