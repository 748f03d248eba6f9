use doukutsu_core::tsc::{put_varint, read_cur_varint, read_varint, ByteStream};

#[test]
fn test_varint() {
    for n in -4000..=4000 {
        let mut out = Vec::new();
        put_varint(n, &mut out);

        let result = read_varint(&mut ByteStream::new(&out)).unwrap();
        assert_eq!(result, n);
        let mut cur = ByteStream::new(&out);
        let result = read_cur_varint(&mut cur).unwrap();
        assert_eq!(result, n);
    }
}

use doukutsu_core::tsc::{
    decrypt_tsc, expect_char, put_chars, put_string, read_number, skip_until, ScriptError, TextScriptEncoding,
};

#[test]
fn decrypt_uses_middle_byte_as_key() {
    let mut buf = vec![10u8, 20, 5, 30, 40];
    decrypt_tsc(&mut buf);
    assert_eq!(buf, vec![5, 15, 5, 25, 35]);
}

#[test]
fn decrypt_zero_middle_byte_means_key_seven() {
    let mut buf = vec![8u8, 9, 0, 3];
    decrypt_tsc(&mut buf);
    assert_eq!(buf, vec![1, 2, 0, 252]);
}

#[test]
fn expect_char_results() {
    let data = b"ab";
    let mut it = ByteStream::new(data);
    assert_eq!(expect_char(b'a', &mut it), Ok(()));
    assert_eq!(expect_char(b'x', &mut it), Err(ScriptError::Expected { expected: b'x', found: b'b' }));
    assert_eq!(expect_char(b'a', &mut it), Err(ScriptError::UnexpectedEnd));
}

#[test]
fn skip_until_stops_before_the_byte() {
    let data = b"ab#c";
    let mut it = ByteStream::new(data);
    assert_eq!(skip_until(b'#', &mut it), Ok(()));
    assert_eq!(it.peek(), Some(b'#'));
    let data = b"abc";
    let mut it = ByteStream::new(data);
    assert_eq!(skip_until(b'#', &mut it), Err(ScriptError::UnexpectedEnd));
}

#[test]
fn read_number_values() {
    assert_eq!(read_number(&mut ByteStream::new(b"0123")), Ok(123));
    assert_eq!(read_number(&mut ByteStream::new(b"9999x")), Ok(9999));
    // No digit check: 'A' counts as 17, '/' as 255.
    assert_eq!(read_number(&mut ByteStream::new(b"A000")), Ok(17000));
    assert_eq!(read_number(&mut ByteStream::new(b"/000")), Ok(255000));
    assert_eq!(read_number(&mut ByteStream::new(b"12")), Err(ScriptError::UnexpectedEnd));
}

#[test]
fn varint_bytes() {
    let mut out = Vec::new();
    put_varint(0, &mut out);
    put_varint(-1, &mut out);
    put_varint(1, &mut out);
    put_varint(64, &mut out);
    assert_eq!(out, vec![0, 0xff, 0xff, 0xff, 0xff, 0x0f, 2, 0x80, 0x01]);
    let mut out = Vec::new();
    put_varint(i32::MIN, &mut out);
    assert_eq!(out, vec![1]);
    assert_eq!(read_varint(&mut ByteStream::new(&out)), Ok(i32::MIN));
    assert_eq!(read_varint(&mut ByteStream::new(&[0x80, 0x80])), Err(ScriptError::UnexpectedEnd));
}

#[test]
fn put_chars_writes_count_then_characters() {
    let mut out = vec![9u8];
    put_chars(&vec!['h', 'é'], &mut out);
    assert_eq!(out, vec![9, 4, 0xD0, 0x01, 0xD2, 0x03]);
}

#[test]
fn put_string_decodes_utf8() {
    let mut buffer = "hé".as_bytes().to_vec();
    let mut out = Vec::new();
    put_string(&mut buffer, &mut out, TextScriptEncoding::UTF8);
    assert!(buffer.is_empty());
    assert_eq!(out, vec![4, 0xD0, 0x01, 0xD2, 0x03]);
}

#[test]
fn put_string_decodes_shift_jis() {
    let mut buffer = vec![0x82u8, 0xA0];
    let mut out = Vec::new();
    put_string(&mut buffer, &mut out, TextScriptEncoding::ShiftJIS);
    assert!(buffer.is_empty());
    assert_eq!(out, vec![2, 0x84, 0xC1, 0x01]);
}

#[test]
fn put_string_on_empty_buffer_does_nothing() {
    let mut buffer = Vec::new();
    let mut out = vec![1u8];
    put_string(&mut buffer, &mut out, TextScriptEncoding::UTF8);
    assert_eq!(out, vec![1]);
}
