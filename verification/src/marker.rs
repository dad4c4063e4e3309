use vstd::prelude::*;

verus! {

/// The two-byte SOF0 marker pattern that the locator scans for.
pub open spec fn sof0_marker_seq() -> Seq<u8> {
    seq![0xffu8, 0xc0u8]
}

/// True when `b` is the ASCII code of a hexadecimal digit.
pub open spec fn is_hex_digit(b: u8) -> bool {
    ||| 0x30 <= b <= 0x39  // '0' ..= '9'
    ||| 0x41 <= b <= 0x46  // 'A' ..= 'F'
    ||| 0x61 <= b <= 0x66  // 'a' ..= 'f'

}

/// The numeric value of the hexadecimal digit with ASCII code `b`.
pub open spec fn hex_digit_val(b: u8) -> u8 {
    if 0x30 <= b <= 0x39 {
        (b - 0x30) as u8
    } else if 0x41 <= b <= 0x46 {
        (b - 0x41 + 10) as u8
    } else {
        (b - 0x61 + 10) as u8
    }
}

/// The bytes encoded by a sequence of ASCII hexadecimal digits, two digits
/// per byte, most significant digit first.
pub open spec fn hex_decode_seq(s: Seq<u8>) -> Seq<u8> {
    Seq::new(s.len() / 2, |i: int| (hex_digit_val(s[2 * i]) * 16 + hex_digit_val(s[2 * i + 1])) as u8)
}

#[verifier::external_type_specification]
#[verifier::external_body]
pub struct ExFromHexError(hex::FromHexError);

/// Relies on hex::decode: it returns `Ok` exactly on even-length input made
/// of ASCII hexadecimal digits, and then each pair of digits becomes one
/// byte, most significant digit first.
#[verifier::external_body]
fn hex_decode(data: &[u8]) -> (r: Result<Vec<u8>, hex::FromHexError>)
    ensures
        match r {
            Ok(bytes) => {
                &&& data@.len() % 2 == 0
                &&& forall|i: int| 0 <= i < data@.len() ==> is_hex_digit(data@[i])
                &&& bytes@ == hex_decode_seq(data@)
            },
            Err(_) => !(data@.len() % 2 == 0 && forall|i: int|
                0 <= i < data@.len() ==> is_hex_digit(data@[i])),
        },
{
    hex::decode(data)
}

/// Decode the textual pattern `"FFC0"` into the two marker bytes.
pub fn sof0_marker() -> (m: Vec<u8>)
    ensures
        m@ == sof0_marker_seq(),
{
    let mut pattern: Vec<u8> = Vec::new();
    pattern.push(0x46);  // 'F'
    pattern.push(0x46);  // 'F'
    pattern.push(0x43);  // 'C'
    pattern.push(0x30);  // '0'
    proof {
        assert(pattern@ =~= seq![0x46u8, 0x46u8, 0x43u8, 0x30u8]);
    }
    match hex_decode(pattern.as_slice()) {
        Ok(m) => {
            proof {
                assert(m@ =~= sof0_marker_seq());
            }
            m
        },
        Err(_) => {
            proof {
                assert(false);
            }
            Vec::new()
        },
    }
}

} // verus!
