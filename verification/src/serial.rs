//! The USB serial number: the flash chip's unique id in upper-case hexadecimal.

use vstd::prelude::*;

verus! {

/// Bytes in the unique id of the flash chip.
pub const UID_LEN: usize = 8;

/// Capacity of the serial number, two characters for each byte of the id.
pub const SERIAL_LEN: usize = 16;

/// The character `0` as a byte.
pub const ASCII_0: u8 = 0x30;

/// The character `A` as a byte.
pub const ASCII_A: u8 = 0x41;

/// `heapless::String`, the fixed-capacity string that holds the serial number.
#[verifier::external_type_specification]
#[verifier::external_body]
pub struct ExHeaplessString<const N: usize>(heapless::String<N>);

/// The characters that a serial number holds, in order.
pub uninterp spec fn serial_chars(serial: heapless::String<SERIAL_LEN>) -> Seq<char>;

/// Calls `heapless::String::new`. The string that it makes holds no characters.
#[verifier::external_body]
fn empty_serial() -> (serial: heapless::String<SERIAL_LEN>)
    ensures
        serial_chars(serial) == Seq::<char>::empty(),
{
    heapless::String::new()
}

/// Calls `heapless::String::push`. The character is appended when the UTF-8 encoding of the
/// longer string fits the capacity of `SERIAL_LEN` bytes; otherwise the call fails and the string
/// stays as it was.
#[verifier::external_body]
fn push_char(serial: &mut heapless::String<SERIAL_LEN>, c: char) -> (pushed: Result<(), ()>)
    ensures
        pushed is Ok <==> vstd::utf8::encode_utf8(serial_chars(*old(serial)).push(c)).len()
            <= SERIAL_LEN,
        pushed is Ok ==> serial_chars(*final(serial)) == serial_chars(*old(serial)).push(c),
        pushed is Err ==> serial_chars(*final(serial)) == serial_chars(*old(serial)),
{
    serial.push(c)
}

/// The upper-case hexadecimal digit of a nibble.
pub open spec fn hex_digit(nibble: int) -> char {
    if nibble < 10 {
        ('0' as int + nibble) as char
    } else {
        ('A' as int + nibble - 10) as char
    }
}

/// The value of an upper-case hexadecimal digit.
pub open spec fn digit_value(digit: char) -> int {
    if digit <= '9' {
        digit as int - '0' as int
    } else {
        digit as int - 'A' as int + 10
    }
}

/// Whether a character is an upper-case hexadecimal digit.
pub open spec fn is_hex_digit(c: char) -> bool {
    '0' <= c <= '9' || 'A' <= c <= 'F'
}

/// The hexadecimal form of a sequence of bytes: for each byte the digit of its upper half, then
/// the digit of its lower half.
pub open spec fn hex_chars(bytes: Seq<u8>) -> Seq<char> {
    Seq::new(
        2 * bytes.len(),
        |i: int|
            if i % 2 == 0 {
                hex_digit(bytes[i / 2] as int / 16)
            } else {
                hex_digit(bytes[i / 2] as int % 16)
            },
    )
}

/// The hexadecimal digit of a nibble, with `A` for ten.
pub fn hex(nibble: u8) -> (digit: char)
    requires
        nibble <= u8::MAX - ASCII_A,
    ensures
        digit == hex_digit(nibble as int),
{
    if nibble < 10 {
        (ASCII_0 + nibble) as char
    } else {
        (ASCII_A + nibble - 10) as char
    }
}

/// The serial number of the probe whose flash chip has the unique id `uid`.
pub fn serial_number(uid: &[u8; UID_LEN]) -> (serial: heapless::String<SERIAL_LEN>)
    ensures
        serial_chars(serial) == hex_chars(uid@),
{
    let mut serial = empty_serial();
    let mut i: usize = 0;
    while i < UID_LEN
        invariant
            i <= UID_LEN,
            serial_chars(serial) == hex_chars(uid@.take(i as int)),
        decreases UID_LEN - i,
    {
        let b: u8 = uid[i];
        let lower: u8 = b & 0x0F;
        let upper: u8 = (b >> 4) & 0x0F;
        assert(b & 0x0F == b % 16 && (b >> 4) & 0x0F == b / 16) by (bit_vector);
        let ghost before = serial_chars(serial);
        let ghost one = before.push(hex_digit(upper as int));
        let ghost two = one.push(hex_digit(lower as int));
        proof {
            vstd::utf8::is_ascii_chars_encode_utf8(one);
            vstd::utf8::is_ascii_chars_encode_utf8(two);
        }
        push_char(&mut serial, hex(upper)).unwrap();
        push_char(&mut serial, hex(lower)).unwrap();
        proof {
            assert(two =~= hex_chars(uid@.take(i + 1)));
        }
        i += 1;
    }
    assert(uid@.take(UID_LEN as int) =~= uid@);
    serial
}

/// A serial number has two characters for each byte of the id, all of them upper-case
/// hexadecimal digits.
pub proof fn serial_is_hexadecimal(uid: Seq<u8>)
    ensures
        hex_chars(uid).len() == 2 * uid.len(),
        forall|i: int| 0 <= i < hex_chars(uid).len() ==> is_hex_digit(#[trigger] hex_chars(uid)[i]),
{
}

/// The id can be read back from the serial number.
pub proof fn serial_determines_uid(uid: Seq<u8>)
    ensures
        forall|i: int|
            0 <= i < uid.len() ==> #[trigger] uid[i] == 16 * digit_value(hex_chars(uid)[2 * i])
                + digit_value(hex_chars(uid)[2 * i + 1]),
{
}

/// Probes with different ids have different serial numbers.
pub proof fn serials_are_distinct(uid1: Seq<u8>, uid2: Seq<u8>)
    requires
        uid1 != uid2,
    ensures
        hex_chars(uid1) != hex_chars(uid2),
{
    if hex_chars(uid1) == hex_chars(uid2) {
        serial_is_hexadecimal(uid1);
        serial_is_hexadecimal(uid2);
        serial_determines_uid(uid1);
        serial_determines_uid(uid2);
        assert(uid1 =~= uid2);
    }
}

/// A nibble is written as its decimal digit, or as the letter that is as far from `A` as the
/// nibble is from ten.
pub proof fn nibble_is_written_as_its_digit(nibble: int)
    requires
        0 <= nibble <= 190,
    ensures
        nibble < 10 ==> hex_digit(nibble) as int == 48 + nibble,
        nibble >= 10 ==> hex_digit(nibble) as int == 65 + (nibble - 10),
{
}

/// Each byte of the id stands at its own place in the serial number, upper half first: the two
/// characters there are the digits of the byte to base sixteen.
pub proof fn byte_is_written_at_its_place(uid: Seq<u8>, i: int)
    requires
        0 <= i < uid.len(),
    ensures
        ({
            let upper = hex_chars(uid)[2 * i] as int;
            let lower = hex_chars(uid)[2 * i + 1] as int;
            let u = if upper <= 57 {
                upper - 48
            } else {
                upper - 55
            };
            let l = if lower <= 57 {
                lower - 48
            } else {
                lower - 55
            };
            &&& 48 <= upper <= 57 || 65 <= upper <= 70
            &&& 48 <= lower <= 57 || 65 <= lower <= 70
            &&& uid[i] == 16 * u + l
        }),
{
}

} // verus!
