use scylla::frame::frame_errors::{ParseError, SerializeError};
use scylla::frame::types::{
    read_byte, read_bytes, read_bytes_opt, read_consistency, read_int, read_long,
    read_long_string, read_raw_bytes, read_short, read_short_bytes, read_string,
    read_string_list, read_string_map, read_string_multimap, write_bytes, write_bytes_opt,
    write_consistency, write_int, write_long, write_long_string, write_short, write_short_bytes,
    write_string, write_string_list, write_string_map,
};
use scylla::statement::Consistency;

#[test]
fn short_is_two_bytes_big_endian() {
    let mut buf = Vec::new();
    write_short(0x0102, &mut buf);
    assert_eq!(buf, vec![0x01, 0x02]);
    let mut cur: &[u8] = &buf;
    assert_eq!(read_short(&mut cur), Ok(0x0102));
    assert!(cur.is_empty());
}

#[test]
fn short_reads_high_values_as_unsigned() {
    let bytes = [0xff, 0xfe, 7];
    let mut cur: &[u8] = &bytes;
    assert_eq!(read_short(&mut cur), Ok(0xfffe));
    assert_eq!(cur, &[7][..]);
}

#[test]
fn int_is_four_bytes_twos_complement() {
    let mut buf = Vec::new();
    write_int(-1, &mut buf);
    write_int(0x01020304, &mut buf);
    write_int(i32::MIN, &mut buf);
    assert_eq!(
        buf,
        vec![0xff, 0xff, 0xff, 0xff, 0x01, 0x02, 0x03, 0x04, 0x80, 0x00, 0x00, 0x00]
    );
    let mut cur: &[u8] = &buf;
    assert_eq!(read_int(&mut cur), Ok(-1));
    assert_eq!(read_int(&mut cur), Ok(0x01020304));
    assert_eq!(read_int(&mut cur), Ok(i32::MIN));
    assert_eq!(read_int(&mut cur), Err(ParseError::UnexpectedEof));
}

#[test]
fn long_is_eight_bytes_twos_complement() {
    let mut buf = Vec::new();
    write_long(-2, &mut buf);
    write_long(0x0102030405060708, &mut buf);
    assert_eq!(
        buf,
        vec![
            0xff, 0xff, 0xff, 0xff, 0xff, 0xff, 0xff, 0xfe, 0x01, 0x02, 0x03, 0x04, 0x05, 0x06,
            0x07, 0x08
        ]
    );
    let mut cur: &[u8] = &buf;
    assert_eq!(read_long(&mut cur), Ok(-2));
    assert_eq!(read_long(&mut cur), Ok(0x0102030405060708));
    assert_eq!(read_long(&mut cur), Err(ParseError::UnexpectedEof));
}

#[test]
fn failed_read_leaves_cursor_in_place() {
    let bytes = [0x00, 0x05, b'a', b'b'];
    let mut cur: &[u8] = &bytes;
    assert_eq!(read_string(&mut cur), Err(ParseError::UnexpectedEof));
    assert_eq!(cur, &bytes[..]);
    let one = [0x01];
    let mut cur: &[u8] = &one;
    assert_eq!(read_short(&mut cur), Err(ParseError::UnexpectedEof));
    assert_eq!(cur, &one[..]);
}

#[test]
fn string_has_short_length_and_utf8() {
    let mut buf = Vec::new();
    assert_eq!(write_string("zażółć", &mut buf), Ok(()));
    let text = "zażółć".as_bytes();
    assert_eq!(buf[0], 0);
    assert_eq!(buf[1] as usize, text.len());
    assert_eq!(&buf[2..], text);
    buf.push(0xaa);
    let mut cur: &[u8] = &buf;
    assert_eq!(read_string(&mut cur), Ok("zażółć"));
    assert_eq!(cur, &[0xaa][..]);
}

#[test]
fn string_rejects_invalid_utf8() {
    let bytes = [0x00, 0x02, 0xc3, 0x28];
    let mut cur: &[u8] = &bytes;
    assert_eq!(read_string(&mut cur), Err(ParseError::InvalidUtf8));
    assert_eq!(cur, &bytes[..]);
}

#[test]
fn string_too_long_for_short_is_refused() {
    let long = "a".repeat(65536);
    let mut buf = vec![1, 2, 3];
    assert_eq!(
        write_string(&long, &mut buf),
        Err(SerializeError::ShortLengthOverflow)
    );
    assert_eq!(buf, vec![1, 2, 3]);
    let fits = "a".repeat(65535);
    assert_eq!(write_string(&fits, &mut buf), Ok(()));
    assert_eq!(buf.len(), 3 + 2 + 65535);
    assert_eq!(&buf[3..5], &[0xff, 0xff]);
}

#[test]
fn long_string_has_int_length() {
    let mut buf = Vec::new();
    assert_eq!(write_long_string("SELECT", &mut buf), Ok(()));
    assert_eq!(buf, vec![0, 0, 0, 6, b'S', b'E', b'L', b'E', b'C', b'T']);
    let mut cur: &[u8] = &buf;
    assert_eq!(read_long_string(&mut cur), Ok("SELECT"));
    let negative = [0xff, 0xff, 0xff, 0xfe];
    let mut cur: &[u8] = &negative;
    assert_eq!(
        read_long_string(&mut cur),
        Err(ParseError::NegativeLength(-2))
    );
    let invalid = [0, 0, 0, 1, 0xff];
    let mut cur: &[u8] = &invalid;
    assert_eq!(read_long_string(&mut cur), Err(ParseError::InvalidUtf8));
}

#[test]
fn bytes_have_int_length_and_null_is_minus_one() {
    let mut buf = Vec::new();
    assert_eq!(write_bytes(&[9, 8, 7], &mut buf), Ok(()));
    assert_eq!(write_bytes_opt(None, &mut buf), Ok(()));
    assert_eq!(write_bytes_opt(Some(&[5]), &mut buf), Ok(()));
    assert_eq!(
        buf,
        vec![0, 0, 0, 3, 9, 8, 7, 0xff, 0xff, 0xff, 0xff, 0, 0, 0, 1, 5]
    );
    let mut cur: &[u8] = &buf;
    assert_eq!(read_bytes_opt(&mut cur), Ok(Some(&[9u8, 8, 7][..])));
    assert_eq!(read_bytes_opt(&mut cur), Ok(None));
    assert_eq!(read_bytes(&mut cur), Ok(&[5u8][..]));
    assert!(cur.is_empty());
}

#[test]
fn bytes_that_must_be_there_reject_null() {
    let bytes = [0xff, 0xff, 0xff, 0xff, 1];
    let mut cur: &[u8] = &bytes;
    assert_eq!(read_bytes(&mut cur), Err(ParseError::NegativeLength(-1)));
    assert_eq!(cur, &bytes[..]);
    let short = [0, 0, 0, 4, 1, 2, 3];
    let mut cur: &[u8] = &short;
    assert_eq!(read_bytes(&mut cur), Err(ParseError::UnexpectedEof));
    let mut cur: &[u8] = &short;
    assert_eq!(read_bytes_opt(&mut cur), Err(ParseError::UnexpectedEof));
    assert_eq!(cur, &short[..]);
}

#[test]
fn short_bytes_have_short_length() {
    let mut buf = Vec::new();
    assert_eq!(write_short_bytes(&[1, 2, 3, 4], &mut buf), Ok(()));
    assert_eq!(buf, vec![0, 4, 1, 2, 3, 4]);
    let mut cur: &[u8] = &buf;
    assert_eq!(read_short_bytes(&mut cur), Ok(&[1u8, 2, 3, 4][..]));
    let too_long = vec![0u8; 65536];
    assert_eq!(
        write_short_bytes(&too_long, &mut buf),
        Err(SerializeError::ShortLengthOverflow)
    );
    assert_eq!(buf, vec![0, 4, 1, 2, 3, 4]);
}

#[test]
fn raw_bytes_take_what_is_asked() {
    let bytes = [1, 2, 3];
    let mut cur: &[u8] = &bytes;
    assert_eq!(read_raw_bytes(2, &mut cur), Ok(&[1u8, 2][..]));
    assert_eq!(read_raw_bytes(2, &mut cur), Err(ParseError::UnexpectedEof));
    assert_eq!(read_raw_bytes(0, &mut cur), Ok(&[][..]));
    assert_eq!(read_byte(&mut cur), Ok(3));
    assert_eq!(read_byte(&mut cur), Err(ParseError::UnexpectedEof));
}

#[test]
fn consistency_codes_follow_the_protocol() {
    let all = [
        (Consistency::Any, 0u16),
        (Consistency::One, 1),
        (Consistency::Two, 2),
        (Consistency::Three, 3),
        (Consistency::Quorum, 4),
        (Consistency::All, 5),
        (Consistency::LocalQuorum, 6),
        (Consistency::EachQuorum, 7),
        (Consistency::Serial, 8),
        (Consistency::LocalSerial, 9),
        (Consistency::LocalOne, 10),
    ];
    for (consistency, code) in all {
        assert_eq!(consistency.to_u16(), code);
        assert_eq!(Consistency::from_u16(code), Some(consistency));
        let mut buf = Vec::new();
        write_consistency(consistency, &mut buf);
        assert_eq!(buf, vec![0, code as u8]);
        let mut cur: &[u8] = &buf;
        assert_eq!(read_consistency(&mut cur), Ok(consistency));
    }
    assert_eq!(Consistency::from_u16(11), None);
    let unknown = [0x00, 0x0b];
    let mut cur: &[u8] = &unknown;
    assert_eq!(
        read_consistency(&mut cur),
        Err(ParseError::UnknownConsistency(11))
    );
    assert_eq!(Consistency::default(), Consistency::Quorum);
}

#[test]
fn string_list_round_trip() {
    let list = vec!["int".to_string(), "".to_string(), "text".to_string()];
    let mut buf = Vec::new();
    assert_eq!(write_string_list(&list, &mut buf), Ok(()));
    assert_eq!(
        buf,
        vec![0, 3, 0, 3, b'i', b'n', b't', 0, 0, 0, 4, b't', b'e', b'x', b't']
    );
    let mut cur: &[u8] = &buf;
    assert_eq!(read_string_list(&mut cur), Ok(list));
    assert!(cur.is_empty());
    let cut = [0, 2, 0, 1, b'a'];
    let mut cur: &[u8] = &cut;
    assert_eq!(read_string_list(&mut cur), Err(ParseError::UnexpectedEof));
    assert_eq!(cur, &cut[..]);
}

#[test]
fn string_list_with_a_string_too_long_writes_nothing() {
    let list = vec!["ok".to_string(), "b".repeat(70000)];
    let mut buf = vec![42];
    assert_eq!(
        write_string_list(&list, &mut buf),
        Err(SerializeError::ShortLengthOverflow)
    );
    assert_eq!(buf, vec![42]);
}

#[test]
fn string_map_round_trip_keeps_order() {
    let pairs = vec![
        ("CQL_VERSION".to_string(), "4.0.0".to_string()),
        ("COMPRESSION".to_string(), "lz4".to_string()),
    ];
    let mut buf = Vec::new();
    assert_eq!(write_string_map(&pairs, &mut buf), Ok(()));
    assert_eq!(&buf[0..2], &[0, 2]);
    assert_eq!(&buf[2..4], &[0, 11]);
    let mut cur: &[u8] = &buf;
    assert_eq!(read_string_map(&mut cur), Ok(pairs));
    assert!(cur.is_empty());
}

#[test]
fn string_multimap_is_read_in_order() {
    let bytes = [
        0, 2, 0, 1, b'a', 0, 2, 0, 1, b'x', 0, 1, b'y', 0, 1, b'b', 0, 0,
    ];
    let mut cur: &[u8] = &bytes;
    assert_eq!(
        read_string_multimap(&mut cur),
        Ok(vec![
            ("a".to_string(), vec!["x".to_string(), "y".to_string()]),
            ("b".to_string(), vec![]),
        ])
    );
    assert!(cur.is_empty());
    let cut = [0, 1, 0, 1, b'a', 0, 1];
    let mut cur: &[u8] = &cut;
    assert_eq!(
        read_string_multimap(&mut cur),
        Err(ParseError::UnexpectedEof)
    );
}
