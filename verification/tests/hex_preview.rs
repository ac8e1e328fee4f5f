//! Hexadecimal preview of byte ranges, and the register hex editor.

use rain::{bytes_to_hex, DataFormatType, DataPreviewOptions, Endianness, HexEdit};

fn opts(e: Endianness, f: DataFormatType) -> DataPreviewOptions {
    DataPreviewOptions { selected_endianness: e, selected_data_format: f }
}

#[test]
fn u8_renders_minimal_hex() {
    assert_eq!(bytes_to_hex(opts(Endianness::Little, DataFormatType::U8), &[0xff]), "ff");
    assert_eq!(bytes_to_hex(opts(Endianness::Big, DataFormatType::U8), &[0x05]), "5");
    assert_eq!(bytes_to_hex(opts(Endianness::Little, DataFormatType::U8), &[0x00]), "0");
}

#[test]
fn u16_respects_endianness() {
    assert_eq!(bytes_to_hex(opts(Endianness::Little, DataFormatType::U16), &[0x34, 0x12]), "1234");
    assert_eq!(bytes_to_hex(opts(Endianness::Big, DataFormatType::U16), &[0x12, 0x34]), "1234");
    assert_eq!(bytes_to_hex(opts(Endianness::Big, DataFormatType::U16), &[0x34, 0x12]), "3412");
}

#[test]
fn u32_and_u64_render_full_values() {
    assert_eq!(
        bytes_to_hex(opts(Endianness::Little, DataFormatType::U32), &[0x78, 0x56, 0x34, 0x12]),
        "12345678"
    );
    assert_eq!(
        bytes_to_hex(
            opts(Endianness::Big, DataFormatType::U64),
            &[0xff, 0xee, 0xdd, 0xcc, 0xbb, 0xaa, 0x99, 0x88]
        ),
        "ffeeddccbbaa9988"
    );
}

#[test]
fn signed_formats_render_the_bits() {
    // -1 as i16 little-endian: the two's-complement bits, exactly as the
    // unsigned format of the same width renders them.
    assert_eq!(bytes_to_hex(opts(Endianness::Little, DataFormatType::I16), &[0xff, 0xff]), "ffff");
    assert_eq!(bytes_to_hex(opts(Endianness::Big, DataFormatType::I8), &[0x80]), "80");
    assert_eq!(
        bytes_to_hex(opts(Endianness::Little, DataFormatType::I32), &[0x00, 0x00, 0x00, 0x80]),
        "80000000"
    );
}

#[test]
fn leading_zero_bytes_do_not_pad() {
    assert_eq!(bytes_to_hex(opts(Endianness::Little, DataFormatType::U16), &[0x07, 0x00]), "7");
    assert_eq!(bytes_to_hex(opts(Endianness::Big, DataFormatType::U16), &[0x00, 0x07]), "7");
}

#[test]
fn hex_edit_commits_a_parsed_value() {
    let mut edit = HexEdit::default();
    edit.edit = String::from("ff");
    let mut value: u64 = 3;
    edit.commit(&mut value);
    assert_eq!(value, 255);
    assert_eq!(edit.edit, "0x00000000000000ff");
}

#[test]
fn hex_edit_trims_leading_prefixes() {
    let mut edit = HexEdit::default();
    edit.edit = String::from("0x1a");
    let mut value: u64 = 0;
    edit.commit(&mut value);
    assert_eq!(value, 0x1a);
    assert_eq!(edit.edit, "0x000000000000001a");

    edit.edit = String::from("0x0x2b");
    edit.commit(&mut value);
    assert_eq!(value, 0x2b);
}

#[test]
fn hex_edit_accepts_a_leading_plus_and_uppercase() {
    let mut edit = HexEdit::default();
    edit.edit = String::from("+AB");
    let mut value: u64 = 0;
    edit.commit(&mut value);
    assert_eq!(value, 0xab);
}

#[test]
fn hex_edit_keeps_the_value_on_invalid_text() {
    let mut edit = HexEdit::default();
    edit.edit = String::from("zz");
    let mut value: u64 = 0x42;
    edit.commit(&mut value);
    assert_eq!(value, 0x42);
    // The text is regenerated from the kept value.
    assert_eq!(edit.edit, "0x0000000000000042");
}

#[test]
fn hex_edit_rejects_empty_and_overflowing_text() {
    let mut edit = HexEdit::default();
    let mut value: u64 = 0;
    edit.commit(&mut value);
    assert_eq!(value, 0);
    // Zero keeps the text empty rather than all zeros.
    assert_eq!(edit.edit, "");

    edit.edit = String::from("10000000000000000");
    edit.commit(&mut value);
    assert_eq!(value, 0);
    assert_eq!(edit.edit, "");

    edit.edit = String::from("ffffffffffffffff");
    edit.commit(&mut value);
    assert_eq!(value, u64::MAX);
    assert_eq!(edit.edit, "0xffffffffffffffff");
}
