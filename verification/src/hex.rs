//! Lower-case hexadecimal text.

use vstd::prelude::*;
use vstd::string::StringSliceAdditionalSpecFns;

verus! {

/// The value of a lower-case hexadecimal digit; 16 for any other character.
pub open spec fn nibble_of(c: char) -> nat {
    if '0' <= c <= '9' {
        (c as nat - '0' as nat) as nat
    } else if 'a' <= c <= 'f' {
        (c as nat - 'a' as nat + 10) as nat
    } else {
        16
    }
}

/// `s` is an even number of lower-case hexadecimal digits.
pub open spec fn is_hex_lower(s: Seq<char>) -> bool {
    &&& s.len() % 2 == 0
    &&& forall|i: int| 0 <= i < s.len() ==> nibble_of(#[trigger] s[i]) < 16
}

/// The bytes that the digits of `s` stand for, two digits a byte.
pub open spec fn hex_to_bytes(s: Seq<char>) -> Seq<u8> {
    Seq::new(s.len() / 2, |i: int| (16 * nibble_of(s[2 * i]) + nibble_of(s[2 * i + 1])) as u8)
}

#[verifier::external_type_specification]
#[verifier::external_body]
pub struct ExDecodeError(data_encoding::DecodeError);

/// Decodes with `data_encoding::HEXLOWER.decode`. That encoding has the
/// sixteen symbols `0123456789abcdef`, no padding and no ignored characters:
/// it accepts exactly the texts of an even number of those digits and gives
/// one byte for each pair. The call panics on inputs longer than an eighth
/// of the address space, which `requires` leaves out.
#[verifier::external_body]
pub(crate) fn decode_hex(s: &str) -> (r: Result<Vec<u8>, data_encoding::DecodeError>)
    requires
        s.spec_bytes().len() <= usize::MAX / 8,
    ensures
        r is Ok <==> is_hex_lower(s@),
        r matches Ok(v) ==> v@ == hex_to_bytes(s@),
{
    data_encoding::HEXLOWER.decode(s.as_bytes())
}

} // verus!
