use data_encoding::HEXUPPER;
use vstd::prelude::*;

verus! {

/// The sixteen symbols of upper-case hexadecimal, by value.
pub open spec fn spec_hex_symbols() -> Seq<char> {
    seq!['0', '1', '2', '3', '4', '5', '6', '7', '8', '9', 'A', 'B', 'C', 'D', 'E', 'F']
}

/// Bytes in upper-case hexadecimal: two symbols for each byte, the one for
/// its high four bits first.
pub open spec fn spec_hex_upper(bytes: Seq<u8>) -> Seq<char> {
    Seq::new(
        2 * bytes.len(),
        |i: int|
            if i % 2 == 0 {
                spec_hex_symbols()[bytes[i / 2] as int / 16]
            } else {
                spec_hex_symbols()[bytes[i / 2] as int % 16]
            },
    )
}

/// The longest input that the encoder takes.
pub open spec fn spec_hex_max_len() -> int {
    usize::MAX as int / 512
}

/// Calls `encode` of `data_encoding::HEXUPPER`, the base 16 of RFC 4648 with
/// the symbols `0123456789ABCDEF`. The encoder refuses inputs longer than
/// `usize::MAX / 512`, which are left out; of the others the contract claims
/// two symbols a byte, for the high and then the low four bits.
#[verifier::external_body]
pub(crate) fn hex_upper(bytes: &[u8]) -> (s: String)
    requires
        bytes@.len() <= spec_hex_max_len(),
    ensures
        s@ == spec_hex_upper(bytes@),
{
    HEXUPPER.encode(bytes)
}

} // verus!
