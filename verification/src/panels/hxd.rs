//! Hexadecimal rendering of byte ranges: the value of a slice under a chosen
//! width and endianness, and its lowercase hexadecimal text.
//!
//! Signed formats share the rendering of the unsigned format of the same
//! width: hexadecimal text shows the two's-complement bits, so only the byte
//! width and the endianness matter.

use vstd::prelude::*;

verus! {

/// The sixteen lowercase hexadecimal digits, in value order.
pub open spec fn hex_digits() -> Seq<char> {
    seq!['0', '1', '2', '3', '4', '5', '6', '7', '8', '9', 'a', 'b', 'c', 'd', 'e', 'f']
}

/// The minimal lowercase hexadecimal text of `n`: no leading zeros, and a
/// single `0` for zero.
pub open spec fn spec_hex_min(n: nat) -> Seq<char>
    decreases n,
{
    if n < 16 {
        seq![hex_digits()[n as int]]
    } else {
        spec_hex_min(n / 16) + seq![hex_digits()[(n % 16) as int]]
    }
}

/// The lowercase hexadecimal text of `n` padded with leading zeros to exactly
/// `width` digits; digits above the width are cut off.
pub open spec fn spec_hex_pad(n: nat, width: nat) -> Seq<char>
    decreases width,
{
    if width == 0 {
        Seq::empty()
    } else {
        spec_hex_pad(n / 16, (width - 1) as nat) + seq![hex_digits()[(n % 16) as int]]
    }
}

/// The value of `bytes` read as one little-endian unsigned number: the first
/// byte is least significant.
pub open spec fn le_value(bytes: Seq<u8>) -> nat
    decreases bytes.len(),
{
    if bytes.len() == 0 {
        0
    } else {
        (le_value(bytes.skip(1)) * 256 + bytes[0]) as nat
    }
}

/// The value of `bytes` read as one big-endian unsigned number: the last byte
/// is least significant.
pub open spec fn be_value(bytes: Seq<u8>) -> nat
    decreases bytes.len(),
{
    if bytes.len() == 0 {
        0
    } else {
        (be_value(bytes.drop_last()) * 256 + bytes.last()) as nat
    }
}

/// 256 to the power `k`: the count of values of `k` bytes.
pub open spec fn pow256(k: nat) -> nat
    decreases k,
{
    if k == 0 {
        1
    } else {
        256 * pow256((k - 1) as nat)
    }
}

pub proof fn lemma_pow256_increases(i: nat, j: nat)
    requires
        i <= j,
    ensures
        pow256(i) <= pow256(j),
    decreases j,
{
    if i < j {
        lemma_pow256_increases(i, (j - 1) as nat);
    }
}

/// Relies on `String::push`: appends exactly the one character.
#[verifier::external_body]
pub(crate) fn push_char(s: &mut String, c: char)
    ensures
        final(s)@ == old(s)@.push(c),
{
    s.push(c);
}

/// The lowercase hexadecimal digit of a value below sixteen.
pub(crate) fn hex_digit_char(d: u64) -> (c: char)
    requires
        d < 16,
    ensures
        c == hex_digits()[d as int],
{
    match d {
        0 => '0',
        1 => '1',
        2 => '2',
        3 => '3',
        4 => '4',
        5 => '5',
        6 => '6',
        7 => '7',
        8 => '8',
        9 => '9',
        10 => 'a',
        11 => 'b',
        12 => 'c',
        13 => 'd',
        14 => 'e',
        _ => 'f',
    }
}

/// Append the minimal hexadecimal text of `n`.
pub(crate) fn push_hex_min(s: &mut String, n: u64)
    ensures
        final(s)@ == old(s)@ + spec_hex_min(n as nat),
    decreases n,
{
    if n < 16 {
        push_char(s, hex_digit_char(n));
        proof {
            assert(final(s)@ =~= old(s)@ + spec_hex_min(n as nat));
        }
    } else {
        push_hex_min(s, n / 16);
        push_char(s, hex_digit_char(n % 16));
        proof {
            assert(final(s)@ =~= old(s)@ + spec_hex_min(n as nat));
        }
    }
}

/// Append the hexadecimal text of `n` padded to `width` digits.
pub(crate) fn push_hex_pad(s: &mut String, n: u64, width: u8)
    ensures
        final(s)@ == old(s)@ + spec_hex_pad(n as nat, width as nat),
    decreases width,
{
    if width > 0 {
        push_hex_pad(s, n / 16, width - 1);
        push_char(s, hex_digit_char(n % 16));
    }
    proof {
        assert(final(s)@ =~= old(s)@ + spec_hex_pad(n as nat, width as nat));
    }
}

/// Whether a multi-byte value is read least or most significant byte first.
#[derive(Clone, Copy, PartialEq, Eq, Structural)]
pub enum Endianness {
    Big,
    Little,
}

/// The integer width a selected byte range is interpreted as. Signed and
/// unsigned formats of one width render the same hexadecimal text.
#[derive(Clone, Copy, PartialEq, Eq, Structural)]
pub enum DataFormatType {
    U8,
    U16,
    U32,
    U64,
    I8,
    I16,
    I32,
    I64,
}

/// How the preview interprets a selected byte range.
#[derive(Clone, Copy, PartialEq, Eq, Structural)]
pub struct DataPreviewOptions {
    pub selected_endianness: Endianness,
    pub selected_data_format: DataFormatType,
}

/// The byte width of a format.
pub open spec fn format_width(f: DataFormatType) -> nat {
    match f {
        DataFormatType::U8 => 1,
        DataFormatType::U16 => 2,
        DataFormatType::U32 => 4,
        DataFormatType::U64 => 8,
        DataFormatType::I8 => 1,
        DataFormatType::I16 => 2,
        DataFormatType::I32 => 4,
        DataFormatType::I64 => 8,
    }
}

/// The value `bytes` holds under an endianness.
pub open spec fn bytes_value(e: Endianness, bytes: Seq<u8>) -> nat {
    match e {
        Endianness::Little => le_value(bytes),
        Endianness::Big => be_value(bytes),
    }
}

/// The little-endian value of at most eight bytes.
fn le_u64(bytes: &[u8]) -> (v: u64)
    requires
        bytes@.len() <= 8,
    ensures
        v as nat == le_value(bytes@),
{
    let mut v: u64 = 0;
    let mut i: usize = bytes.len();
    proof {
        assert(bytes@.skip(i as int) =~= Seq::<u8>::empty());
    }
    while i > 0
        invariant
            i <= bytes@.len() <= 8,
            v as nat == le_value(bytes@.skip(i as int)),
            (v as nat) < pow256((bytes@.len() - i) as nat),
        decreases i,
    {
        proof {
            lemma_pow256_increases((bytes@.len() - i) as nat, 7);
            assert(pow256(7) <= 0x100000000000000) by {
                assert(pow256(0) == 1);
                assert(pow256(1) == 256);
                assert(pow256(2) == 0x10000);
                assert(pow256(3) == 0x1000000);
                assert(pow256(4) == 0x100000000);
                assert(pow256(5) == 0x10000000000);
                assert(pow256(6) == 0x1000000000000);
                assert(pow256(7) == 0x100000000000000);
            }
            assert(bytes@.skip(i - 1)[0] == bytes@[i - 1]);
            assert(bytes@.skip(i - 1).skip(1) =~= bytes@.skip(i as int));
        }
        i = i - 1;
        v = v * 256 + (bytes[i] as u64);
    }
    proof {
        assert(bytes@.skip(0) =~= bytes@);
    }
    v
}

/// The big-endian value of at most eight bytes.
fn be_u64(bytes: &[u8]) -> (v: u64)
    requires
        bytes@.len() <= 8,
    ensures
        v as nat == be_value(bytes@),
{
    let mut v: u64 = 0;
    let mut i: usize = 0;
    proof {
        assert(bytes@.take(0) =~= Seq::<u8>::empty());
    }
    while i < bytes.len()
        invariant
            i <= bytes@.len() <= 8,
            v as nat == be_value(bytes@.take(i as int)),
            (v as nat) < pow256(i as nat),
        decreases bytes@.len() - i,
    {
        proof {
            lemma_pow256_increases(i as nat, 7);
            assert(pow256(7) <= 0x100000000000000) by {
                assert(pow256(0) == 1);
                assert(pow256(1) == 256);
                assert(pow256(2) == 0x10000);
                assert(pow256(3) == 0x1000000);
                assert(pow256(4) == 0x100000000);
                assert(pow256(5) == 0x10000000000);
                assert(pow256(6) == 0x1000000000000);
                assert(pow256(7) == 0x100000000000000);
            }
            assert(bytes@.take(i + 1).drop_last() =~= bytes@.take(i as int));
            assert(bytes@.take(i + 1).last() == bytes@[i as int]);
        }
        v = v * 256 + (bytes[i] as u64);
        i = i + 1;
    }
    proof {
        assert(bytes@.take(bytes@.len() as int) =~= bytes@);
    }
    v
}

/// Render the bytes of one selected value as lowercase hexadecimal text,
/// reading them with the width and endianness the preview selects. The slice
/// must hold exactly the format's width in bytes.
pub fn bytes_to_hex(data_preview: DataPreviewOptions, bytes: &[u8]) -> (r: String)
    requires
        bytes@.len() == format_width(data_preview.selected_data_format),
    ensures
        r@ == spec_hex_min(bytes_value(data_preview.selected_endianness, bytes@)),
{
    let v = match data_preview.selected_endianness {
        Endianness::Little => le_u64(bytes),
        Endianness::Big => be_u64(bytes),
    };
    let mut s = String::new();
    push_hex_min(&mut s, v);
    proof {
        assert(s@ =~= spec_hex_min(bytes_value(data_preview.selected_endianness, bytes@)));
    }
    s
}

} // verus!
