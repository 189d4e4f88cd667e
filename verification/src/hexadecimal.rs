//! Hexadecimal text: what it stands for, and the calls into the `hex` crate
//! that decode and encode it.

use vstd::prelude::*;

verus! {

#[verifier::external_type_specification]
#[verifier::external_body]
pub struct ExFromHexError(hex::FromHexError);

/// The value of a hexadecimal digit given as an ASCII byte, in either case.
pub open spec fn hex_digit(digit: u8) -> Option<nat> {
    if 0x30 <= digit <= 0x39 {
        Some((digit - 0x30) as nat)
    } else if 0x61 <= digit <= 0x66 {
        Some((digit - 0x61 + 10) as nat)
    } else if 0x41 <= digit <= 0x46 {
        Some((digit - 0x41 + 10) as nat)
    } else {
        None
    }
}

/// Every byte is a hexadecimal digit.
pub open spec fn is_hex(digits: Seq<u8>) -> bool {
    forall|i: int| 0 <= i < digits.len() ==> (#[trigger] hex_digit(digits[i])) is Some
}

/// The number that the digits write, the first digit counting most.
pub open spec fn hex_value(digits: Seq<u8>) -> nat
    decreases digits.len(),
{
    if digits.len() == 0 {
        0
    } else {
        hex_value(digits.drop_last()) * 16 + hex_digit(digits.last()).unwrap()
    }
}

/// The bytes that the digits write, two digits to a byte.
pub open spec fn hex_bytes(digits: Seq<u8>) -> Seq<u8> {
    Seq::new(
        digits.len() / 2,
        |i: int| (hex_digit(digits[2 * i]).unwrap() * 16 + hex_digit(digits[2 * i + 1]).unwrap()) as u8,
    )
}

/// The lower-case digit of a value below sixteen, as a character.
pub open spec fn hex_char(value: nat) -> char {
    if value < 10 {
        (0x30 + value) as char
    } else {
        (0x61 + value - 10) as char
    }
}

/// The bytes written in lower-case hexadecimal, two digits to a byte.
pub open spec fn hex_text(bytes: Seq<u8>) -> Seq<char> {
    Seq::new(
        2 * bytes.len(),
        |i: int|
            if i % 2 == 0 {
                hex_char((bytes[i / 2] / 16) as nat)
            } else {
                hex_char((bytes[i / 2] % 16) as nat)
            },
    )
}

/// The number that the bytes hold, the first byte counting least.
pub open spec fn le_value(bytes: Seq<u8>) -> nat
    decreases bytes.len(),
{
    if bytes.len() == 0 {
        0
    } else {
        bytes[0] as nat + 256 * le_value(bytes.drop_first())
    }
}

/// `hex::FromHex::from_hex` for `[u8; 4]`: succeeds on exactly eight
/// hexadecimal digits, of either case, and gives the four bytes they write;
/// any other input is an error.
#[verifier::external_body]
pub(crate) fn decode_4(digits: &[u8]) -> (decoded: Result<[u8; 4], hex::FromHexError>)
    ensures
        match decoded {
            Ok(bytes) => digits@.len() == 8 && is_hex(digits@) && bytes@ == hex_bytes(digits@),
            Err(_) => !(digits@.len() == 8 && is_hex(digits@)),
        },
{
    <[u8; 4] as hex::FromHex>::from_hex(digits)
}

/// `hex::FromHex::from_hex` for `[u8; 8]`: succeeds on exactly sixteen
/// hexadecimal digits, of either case, and gives the eight bytes they
/// write; any other input is an error.
#[verifier::external_body]
pub(crate) fn decode_8(digits: &[u8]) -> (decoded: Result<[u8; 8], hex::FromHexError>)
    ensures
        match decoded {
            Ok(bytes) => digits@.len() == 16 && is_hex(digits@) && bytes@ == hex_bytes(digits@),
            Err(_) => !(digits@.len() == 16 && is_hex(digits@)),
        },
{
    <[u8; 8] as hex::FromHex>::from_hex(digits)
}

/// `hex::encode`: the bytes in lower-case hexadecimal, two digits to a
/// byte.
#[verifier::external_body]
pub(crate) fn encode(bytes: &[u8]) -> (text: String)
    ensures
        text@ == hex_text(bytes@),
{
    hex::encode(bytes)
}

/// The bytes of a hash in lower-case hexadecimal.
pub fn encode_hex(bytes: &Vec<u8>) -> (text: String)
    ensures
        text@ == hex_text(bytes@),
        text@.len() == 2 * bytes@.len(),
{
    encode(bytes.as_slice())
}

/// Leading zeros do not change what digits write.
pub proof fn lemma_leading_zeros(zeros: Seq<u8>, digits: Seq<u8>)
    requires
        forall|i: int| 0 <= i < zeros.len() ==> zeros[i] == 0x30,
    ensures
        hex_value(zeros + digits) == hex_value(digits),
    decreases digits.len(), zeros.len(),
{
    if digits.len() > 0 {
        assert((zeros + digits).drop_last() =~= zeros + digits.drop_last());
        lemma_leading_zeros(zeros, digits.drop_last());
    } else {
        assert(zeros + digits =~= zeros);
        if zeros.len() > 0 {
            assert(zeros.drop_last() + Seq::<u8>::empty() =~= zeros.drop_last());
            lemma_leading_zeros(zeros.drop_last(), Seq::<u8>::empty());
        }
    }
}

/// Eight digits write four bytes whose value, the first byte counting
/// most, is the value of the digits.
pub proof fn lemma_eight_digits(digits: Seq<u8>)
    requires
        digits.len() == 8,
        is_hex(digits),
    ensures
        hex_value(digits) == hex_bytes(digits)[0] * 0x100_0000 + hex_bytes(digits)[1] * 0x1_0000
            + hex_bytes(digits)[2] * 0x100 + hex_bytes(digits)[3],
        hex_value(digits) <= u32::MAX,
{
    let d = |i: int| hex_digit(digits[i]).unwrap();
    assert(hex_digit(digits[0]) is Some && hex_digit(digits[1]) is Some);
    assert(hex_digit(digits[2]) is Some && hex_digit(digits[3]) is Some);
    assert(hex_digit(digits[4]) is Some && hex_digit(digits[5]) is Some);
    assert(hex_digit(digits[6]) is Some && hex_digit(digits[7]) is Some);
    let p7 = digits.drop_last();
    let p6 = p7.drop_last();
    let p5 = p6.drop_last();
    let p4 = p5.drop_last();
    let p3 = p4.drop_last();
    let p2 = p3.drop_last();
    let p1 = p2.drop_last();
    let p0 = p1.drop_last();
    assert(hex_value(p0) == 0);
    assert(hex_value(p1) == d(0));
    assert(hex_value(p2) == hex_value(p1) * 16 + d(1));
    assert(hex_value(p3) == hex_value(p2) * 16 + d(2));
    assert(hex_value(p4) == hex_value(p3) * 16 + d(3));
    assert(hex_value(p5) == hex_value(p4) * 16 + d(4));
    assert(hex_value(p6) == hex_value(p5) * 16 + d(5));
    assert(hex_value(p7) == hex_value(p6) * 16 + d(6));
    assert(hex_value(digits) == hex_value(p7) * 16 + d(7));
    let b = hex_bytes(digits);
    assert(b[0] == d(0) * 16 + d(1));
    assert(b[1] == d(2) * 16 + d(3));
    assert(b[2] == d(4) * 16 + d(5));
    assert(b[3] == d(6) * 16 + d(7));
}

/// The value of eight bytes, the first byte counting least.
pub proof fn lemma_eight_bytes(bytes: Seq<u8>)
    requires
        bytes.len() == 8,
    ensures
        le_value(bytes) == bytes[0] + bytes[1] * 0x100 + bytes[2] * 0x1_0000 + bytes[3]
            * 0x100_0000 + bytes[4] * 0x1_0000_0000 + bytes[5] * 0x100_0000_0000 + bytes[6]
            * 0x1_0000_0000_0000 + bytes[7] * 0x100_0000_0000_0000,
        le_value(bytes) <= u64::MAX,
{
    let s1 = bytes.drop_first();
    let s2 = s1.drop_first();
    let s3 = s2.drop_first();
    let s4 = s3.drop_first();
    let s5 = s4.drop_first();
    let s6 = s5.drop_first();
    let s7 = s6.drop_first();
    let s8 = s7.drop_first();
    assert(le_value(s8) == 0);
    assert(le_value(s7) == bytes[7] + 256 * le_value(s8));
    assert(le_value(s6) == bytes[6] + 256 * le_value(s7));
    assert(le_value(s5) == bytes[5] + 256 * le_value(s6));
    assert(le_value(s4) == bytes[4] + 256 * le_value(s5));
    assert(le_value(s3) == bytes[3] + 256 * le_value(s4));
    assert(le_value(s2) == bytes[2] + 256 * le_value(s3));
    assert(le_value(s1) == bytes[1] + 256 * le_value(s2));
    assert(le_value(bytes) == bytes[0] + 256 * le_value(s1));
}

} // verus!
