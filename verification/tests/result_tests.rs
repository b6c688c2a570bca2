use bytes::Bytes;
use scylla::frame::frame_errors::ParseError;
use scylla::frame::response::result::{
    deser_col_specs, deser_cql_value, deser_prepared, deser_prepared_metadata,
    deser_result_metadata, deser_rows, deser_schema_change, deser_set_keyspace, deser_table_spec,
    deser_type, deserialize, is_ascii, CQLValue, ColumnType, InetAddress, Result as CqlResult,
    ResultMetadata, Row, Rows, TableSpec,
};

fn short_string(s: &str) -> Vec<u8> {
    let mut out = vec![(s.len() >> 8) as u8, s.len() as u8];
    out.extend_from_slice(s.as_bytes());
    out
}

fn be_int(v: i32) -> Vec<u8> {
    v.to_be_bytes().to_vec()
}

fn int_bytes(b: &[u8]) -> Vec<u8> {
    let mut out = be_int(b.len() as i32);
    out.extend_from_slice(b);
    out
}

fn abc_metadata(flags: i32) -> Vec<u8> {
    // Three columns a int, b int, c text of table ks.t, with a global table spec.
    let mut body = be_int(flags);
    body.extend(be_int(3));
    body.extend(short_string("ks"));
    body.extend(short_string("t"));
    body.extend(short_string("a"));
    body.extend([0x00, 0x09]);
    body.extend(short_string("b"));
    body.extend([0x00, 0x09]);
    body.extend(short_string("c"));
    body.extend([0x00, 0x0d]);
    body
}

#[test]
fn table_spec_is_two_strings() {
    let mut body = short_string("ks");
    body.extend(short_string("tab"));
    body.push(1);
    let mut cur: &[u8] = &body;
    let spec = deser_table_spec(&mut cur).unwrap();
    assert_eq!(spec.ks_name, "ks");
    assert_eq!(spec.table_name, "tab");
    assert_eq!(cur, &[1][..]);
    let cut = short_string("ks");
    let mut cur: &[u8] = &cut;
    assert_eq!(
        deser_table_spec(&mut cur).unwrap_err(),
        ParseError::UnexpectedEof
    );
    assert_eq!(cur, &cut[..]);
}

#[test]
fn column_types_by_id() {
    let cases: [(&[u8], &str); 6] = [
        (&[0, 1], "Ascii"),
        (&[0, 2], "BigInt"),
        (&[0, 9], "Int"),
        (&[0, 0x0d], "Text"),
        (&[0, 0x10], "Inet"),
        (&[0, 0x22, 0, 0x22, 0, 9], "CqlSet(CqlSet(Int))"),
    ];
    for (bytes, expected) in cases {
        let mut cur: &[u8] = bytes;
        let typ = deser_type(&mut cur).unwrap();
        assert_eq!(format!("{:?}", typ), expected);
        assert!(cur.is_empty());
    }
}

#[test]
fn column_type_errors() {
    let unknown = [0x00, 0x03];
    let mut cur: &[u8] = &unknown;
    assert_eq!(
        deser_type(&mut cur).unwrap_err(),
        ParseError::TypeNotImplemented(3)
    );
    assert_eq!(cur, &unknown[..]);
    let nested_unknown = [0x00, 0x22, 0x00, 0x30];
    let mut cur: &[u8] = &nested_unknown;
    assert_eq!(
        deser_type(&mut cur).unwrap_err(),
        ParseError::TypeNotImplemented(0x30)
    );
    assert_eq!(cur, &nested_unknown[..]);
    let cut = [0x00, 0x22, 0x00];
    let mut cur: &[u8] = &cut;
    assert_eq!(deser_type(&mut cur).unwrap_err(), ParseError::UnexpectedEof);
}

#[test]
fn int_value_is_four_bytes() {
    let raw = [0, 0, 0, 3];
    let mut cur: &[u8] = &raw;
    let v = deser_cql_value(&ColumnType::Int, &mut cur).unwrap();
    assert_eq!(v.as_int(), Some(3));
    assert!(cur.is_empty());
    let raw = [0xff, 0xff, 0xff, 0x85];
    let mut cur: &[u8] = &raw;
    assert_eq!(
        deser_cql_value(&ColumnType::Int, &mut cur).unwrap().as_int(),
        Some(-123)
    );
    for wrong in [&[0u8, 0, 3][..], &[0, 0, 0, 0, 3][..], &[][..]] {
        let mut cur: &[u8] = wrong;
        assert_eq!(
            deser_cql_value(&ColumnType::Int, &mut cur).unwrap_err(),
            ParseError::BadValueLength(wrong.len())
        );
        assert_eq!(cur, wrong);
    }
}

#[test]
fn bigint_value_is_eight_bytes() {
    let raw = [0x80, 0, 0, 0, 0, 0, 0, 1];
    let mut cur: &[u8] = &raw;
    let v = deser_cql_value(&ColumnType::BigInt, &mut cur).unwrap();
    assert_eq!(v.as_bigint(), Some(i64::MIN + 1));
    assert_eq!(v.as_int(), None);
    let wrong = [0, 0, 0, 1];
    let mut cur: &[u8] = &wrong;
    assert_eq!(
        deser_cql_value(&ColumnType::BigInt, &mut cur).unwrap_err(),
        ParseError::BadValueLength(4)
    );
}

#[test]
fn text_and_ascii_values() {
    let mut cur: &[u8] = "zażółć".as_bytes();
    let v = deser_cql_value(&ColumnType::Text, &mut cur).unwrap();
    assert_eq!(v.as_text().map(|s| s.as_str()), Some("zażółć"));
    assert_eq!(v.as_ascii(), None);
    assert!(cur.is_empty());
    let mut cur: &[u8] = b"plain";
    let v = deser_cql_value(&ColumnType::Ascii, &mut cur).unwrap();
    assert_eq!(v.as_ascii().map(|s| s.as_str()), Some("plain"));
    assert_eq!(v.into_string(), Some("plain".to_string()));
    let mut cur: &[u8] = "zażółć".as_bytes();
    assert_eq!(
        deser_cql_value(&ColumnType::Ascii, &mut cur).unwrap_err(),
        ParseError::NotAscii
    );
    let invalid = [0xc3, 0x28];
    let mut cur: &[u8] = &invalid;
    assert_eq!(
        deser_cql_value(&ColumnType::Text, &mut cur).unwrap_err(),
        ParseError::InvalidUtf8
    );
    assert_eq!(cur, &invalid[..]);
    assert!(is_ascii(b"abc\x7f"));
    assert!(!is_ascii(b"abc\x80"));
    assert!(is_ascii(b""));
}

#[test]
fn inet_value_is_four_or_sixteen_bytes() {
    let v4 = [127, 0, 0, 1];
    let mut cur: &[u8] = &v4;
    let v = deser_cql_value(&ColumnType::Inet, &mut cur).unwrap();
    assert_eq!(v.as_inet(), Some(InetAddress::V4([127, 0, 0, 1])));
    let v6: Vec<u8> = (1u8..=16).collect();
    let mut cur: &[u8] = &v6;
    let v = deser_cql_value(&ColumnType::Inet, &mut cur).unwrap();
    assert_eq!(
        v.as_inet(),
        Some(InetAddress::V6([
            1, 2, 3, 4, 5, 6, 7, 8, 9, 10, 11, 12, 13, 14, 15, 16
        ]))
    );
    assert!(cur.is_empty());
    let wrong = [1, 2, 3, 4, 5];
    let mut cur: &[u8] = &wrong;
    assert_eq!(
        deser_cql_value(&ColumnType::Inet, &mut cur).unwrap_err(),
        ParseError::BadValueLength(5)
    );
}

#[test]
fn set_value_is_count_and_elements() {
    let typ = ColumnType::CqlSet(Box::new(ColumnType::Int));
    let mut raw = be_int(2);
    raw.extend(int_bytes(&[0, 0, 0, 7]));
    raw.extend(int_bytes(&[0, 0, 0, 9]));
    raw.push(0xee);
    let mut cur: &[u8] = &raw;
    let v = deser_cql_value(&typ, &mut cur).unwrap();
    let items = v.as_set().unwrap();
    assert_eq!(items.len(), 2);
    assert_eq!(items[0].as_int(), Some(7));
    assert_eq!(items[1].as_int(), Some(9));
    assert_eq!(cur, &[0xee][..]);
    let empty = be_int(0);
    let mut cur: &[u8] = &empty;
    let v = deser_cql_value(&typ, &mut cur).unwrap();
    assert_eq!(v.into_set().map(|s| s.len()), Some(0));
}

#[test]
fn set_value_rejects_null_elements_and_bad_counts() {
    let typ = ColumnType::CqlSet(Box::new(ColumnType::Int));
    let mut null_element = be_int(1);
    null_element.extend(be_int(-1));
    let mut cur: &[u8] = &null_element;
    assert_eq!(
        deser_cql_value(&typ, &mut cur).unwrap_err(),
        ParseError::NegativeLength(-1)
    );
    assert_eq!(cur, &null_element[..]);
    let negative = be_int(-5);
    let mut cur: &[u8] = &negative;
    assert_eq!(
        deser_cql_value(&typ, &mut cur).unwrap_err(),
        ParseError::NegativeLength(-5)
    );
    let mut bad_element = be_int(2);
    bad_element.extend(int_bytes(&[0, 0, 0, 7]));
    bad_element.extend(int_bytes(&[0, 7]));
    let mut cur: &[u8] = &bad_element;
    assert_eq!(
        deser_cql_value(&typ, &mut cur).unwrap_err(),
        ParseError::BadValueLength(2)
    );
    let mut missing = be_int(2);
    missing.extend(int_bytes(&[0, 0, 0, 7]));
    let mut cur: &[u8] = &missing;
    assert_eq!(
        deser_cql_value(&typ, &mut cur).unwrap_err(),
        ParseError::UnexpectedEof
    );
}

#[test]
fn col_specs_with_and_without_global_table_spec() {
    let mut body = short_string("a");
    body.extend([0, 9]);
    body.extend(short_string("b"));
    body.extend([0, 0x0d]);
    let global = Some(TableSpec {
        ks_name: "ks".to_string(),
        table_name: "t".to_string(),
    });
    let mut cur: &[u8] = &body;
    let specs = deser_col_specs(&mut cur, &global, 2).unwrap();
    assert_eq!(specs.len(), 2);
    assert_eq!(specs[0].table_spec.ks_name, "ks");
    assert_eq!(specs[0].name, "a");
    assert_eq!(format!("{:?}", specs[0].typ), "Int");
    assert_eq!(specs[1].table_spec.table_name, "t");
    assert_eq!(specs[1].name, "b");
    assert_eq!(format!("{:?}", specs[1].typ), "Text");
    assert!(cur.is_empty());

    let mut body = short_string("ks1");
    body.extend(short_string("t1"));
    body.extend(short_string("a"));
    body.extend([0, 2]);
    let mut cur: &[u8] = &body;
    let specs = deser_col_specs(&mut cur, &None, 1).unwrap();
    assert_eq!(specs[0].table_spec.ks_name, "ks1");
    assert_eq!(specs[0].table_spec.table_name, "t1");
    assert_eq!(format!("{:?}", specs[0].typ), "BigInt");

    let mut cur: &[u8] = &body;
    assert_eq!(
        deser_col_specs(&mut cur, &None, 2).unwrap_err(),
        ParseError::UnexpectedEof
    );
    assert_eq!(cur, &body[..]);
    let mut cur: &[u8] = &body;
    assert_eq!(deser_col_specs(&mut cur, &None, 0).unwrap().len(), 0);
    assert_eq!(cur, &body[..]);
}

#[test]
fn result_metadata_flags() {
    let body = abc_metadata(0x0001);
    let mut cur: &[u8] = &body;
    let metadata = deser_result_metadata(&mut cur).unwrap();
    assert_eq!(metadata.col_count, 3);
    assert!(metadata.paging_state.is_none());
    assert_eq!(metadata.col_specs.len(), 3);
    assert_eq!(metadata.col_specs[2].name, "c");
    assert!(cur.is_empty());

    // More pages, no metadata.
    let mut body = be_int(0x0002 | 0x0004);
    body.extend(be_int(5));
    body.extend(int_bytes(&[1, 2, 3]));
    body.extend([9, 9]);
    let mut cur: &[u8] = &body;
    let metadata = deser_result_metadata(&mut cur).unwrap();
    assert_eq!(metadata.col_count, 5);
    assert_eq!(metadata.paging_state, Some(Bytes::from_static(&[1, 2, 3])));
    assert!(metadata.col_specs.is_empty());
    assert_eq!(cur, &[9, 9][..]);

    let mut body = be_int(0);
    body.extend(be_int(-1));
    let mut cur: &[u8] = &body;
    assert_eq!(
        deser_result_metadata(&mut cur).unwrap_err(),
        ParseError::NegativeLength(-1)
    );
    // A paging state that is announced must not be null.
    let mut body = be_int(0x0002);
    body.extend(be_int(0));
    body.extend(be_int(-1));
    let mut cur: &[u8] = &body;
    assert_eq!(
        deser_result_metadata(&mut cur).unwrap_err(),
        ParseError::NegativeLength(-1)
    );
    let defaults = ResultMetadata::default();
    assert_eq!(defaults.col_count, 0);
    assert!(defaults.paging_state.is_none());
}

#[test]
fn prepared_metadata_keeps_pk_indexes_in_order() {
    let mut body = be_int(0x0001);
    body.extend(be_int(2));
    body.extend(be_int(2));
    body.extend([0, 1, 0, 0]);
    body.extend(short_string("ks"));
    body.extend(short_string("t"));
    body.extend(short_string("a"));
    body.extend([0, 9]);
    body.extend(short_string("b"));
    body.extend([0, 9]);
    let mut cur: &[u8] = &body;
    let metadata = deser_prepared_metadata(&mut cur).unwrap();
    assert_eq!(metadata.col_count, 2);
    assert_eq!(metadata.pk_indexes, vec![1, 0]);
    assert_eq!(metadata.col_specs.len(), 2);
    assert!(cur.is_empty());
    let copy = metadata.clone();
    assert_eq!(copy.pk_indexes, vec![1, 0]);
    assert_eq!(copy.col_specs[1].name, "b");

    let mut body = be_int(0);
    body.extend(be_int(0));
    body.extend(be_int(-3));
    let mut cur: &[u8] = &body;
    assert_eq!(
        deser_prepared_metadata(&mut cur).unwrap_err(),
        ParseError::NegativeLength(-3)
    );
    let mut body = be_int(0);
    body.extend(be_int(-2));
    let mut cur: &[u8] = &body;
    assert_eq!(
        deser_prepared_metadata(&mut cur).unwrap_err(),
        ParseError::NegativeLength(-2)
    );
    let mut body = be_int(0);
    body.extend(be_int(0));
    body.extend(be_int(2));
    body.extend([0, 1]);
    let mut cur: &[u8] = &body;
    assert_eq!(
        deser_prepared_metadata(&mut cur).unwrap_err(),
        ParseError::UnexpectedEof
    );
}

fn one_row_body() -> Vec<u8> {
    let mut body = abc_metadata(0x0001);
    body.extend(be_int(1));
    body.extend(int_bytes(&[0, 0, 0, 3]));
    body.extend(int_bytes(&[0, 0, 0, 4]));
    body.extend(int_bytes(b"def"));
    body
}

#[test]
fn rows_of_a_select() {
    let body = one_row_body();
    let mut cur: &[u8] = &body;
    let rows = deser_rows(&mut cur).unwrap();
    assert_eq!(rows.rows_count, 1);
    assert_eq!(rows.rows.len(), 1);
    let columns = &rows.rows[0].columns;
    assert_eq!(columns.len(), 3);
    assert_eq!(columns[0].as_ref().unwrap().as_int(), Some(3));
    assert_eq!(columns[1].as_ref().unwrap().as_int(), Some(4));
    assert_eq!(
        columns[2].as_ref().unwrap().as_text().map(|s| s.as_str()),
        Some("def")
    );
    assert!(cur.is_empty());
}

#[test]
fn rows_with_nulls_and_several_rows() {
    let mut body = abc_metadata(0x0001);
    body.extend(be_int(2));
    body.extend(int_bytes(&[0, 0, 0, 42]));
    body.extend(be_int(-1));
    body.extend(int_bytes(b"one"));
    body.extend(int_bytes(&[0, 0, 0, 43]));
    body.extend(int_bytes(&[0, 0, 0, 7]));
    body.extend(be_int(-1));
    let mut cur: &[u8] = &body;
    let rows = deser_rows(&mut cur).unwrap();
    assert_eq!(rows.rows.len(), 2);
    assert_eq!(rows.rows[0].columns[0].as_ref().unwrap().as_int(), Some(42));
    assert!(rows.rows[0].columns[1].is_none());
    assert_eq!(rows.rows[1].columns[1].as_ref().unwrap().as_int(), Some(7));
    assert!(rows.rows[1].columns[2].is_none());
}

#[test]
fn rows_errors() {
    // Metadata left out although columns are counted.
    let mut body = be_int(0x0004);
    body.extend(be_int(2));
    body.extend(be_int(0));
    let mut cur: &[u8] = &body;
    assert_eq!(
        deser_rows(&mut cur).unwrap_err(),
        ParseError::MissingColumnSpecs
    );
    assert_eq!(cur, &body[..]);

    let mut body = abc_metadata(0x0001);
    body.extend(be_int(-1));
    let mut cur: &[u8] = &body;
    assert_eq!(
        deser_rows(&mut cur).unwrap_err(),
        ParseError::NegativeLength(-1)
    );

    let mut body = abc_metadata(0x0001);
    body.extend(be_int(1));
    body.extend(int_bytes(&[0, 0, 3]));
    let mut cur: &[u8] = &body;
    assert_eq!(
        deser_rows(&mut cur).unwrap_err(),
        ParseError::BadValueLength(3)
    );

    let mut body = abc_metadata(0x0001);
    body.extend(be_int(2));
    body.extend(int_bytes(&[0, 0, 0, 3]));
    body.extend(int_bytes(&[0, 0, 0, 4]));
    body.extend(int_bytes(b"def"));
    let mut cur: &[u8] = &body;
    assert_eq!(deser_rows(&mut cur).unwrap_err(), ParseError::UnexpectedEof);
    assert_eq!(cur, &body[..]);
    let empty = Rows::default();
    assert_eq!(empty.rows_count, 0);
    assert!(empty.rows.is_empty());
    assert!(Row::default().columns.is_empty());
}

fn prepared_body() -> Vec<u8> {
    let mut body = vec![0, 4, 0xde, 0xad, 0xbe, 0xef];
    // prepared metadata: one pk index, two columns
    body.extend(be_int(0x0001));
    body.extend(be_int(2));
    body.extend(be_int(1));
    body.extend([0, 0]);
    body.extend(short_string("ks"));
    body.extend(short_string("t"));
    body.extend(short_string("a"));
    body.extend([0, 9]);
    body.extend(short_string("c"));
    body.extend([0, 0x0d]);
    // result metadata: no columns
    body.extend(be_int(0));
    body.extend(be_int(0));
    body
}

#[test]
fn prepared_has_id_and_both_metadata() {
    let body = prepared_body();
    let mut cur: &[u8] = &body;
    let prepared = deser_prepared(&mut cur).unwrap();
    assert_eq!(prepared.id, Bytes::from_static(&[0xde, 0xad, 0xbe, 0xef]));
    assert_eq!(prepared.prepared_metadata.pk_indexes, vec![0]);
    assert_eq!(prepared.prepared_metadata.col_specs.len(), 2);
    assert_eq!(prepared.result_metadata.col_count, 0);
    assert!(cur.is_empty());
    // An id longer than what is there is an error, not a panic.
    let cut = [0, 9, 1, 2];
    let mut cur: &[u8] = &cut;
    assert_eq!(
        deser_prepared(&mut cur).unwrap_err(),
        ParseError::UnexpectedEof
    );
    assert_eq!(cur, &cut[..]);
}

#[test]
fn result_kinds() {
    let mut void = be_int(1);
    void.push(5);
    let mut cur: &[u8] = &void;
    assert!(matches!(deserialize(&mut cur), Ok(CqlResult::Void)));
    assert_eq!(cur, &[5][..]);

    let mut rows = be_int(2);
    rows.extend(one_row_body());
    let mut cur: &[u8] = &rows;
    match deserialize(&mut cur) {
        Ok(CqlResult::Rows(rows)) => assert_eq!(rows.rows.len(), 1),
        other => panic!("unexpected {:?}", other),
    }

    let set_keyspace = be_int(3);
    let mut cur: &[u8] = &set_keyspace;
    assert!(matches!(
        deserialize(&mut cur),
        Ok(CqlResult::SetKeyspace(_))
    ));

    let mut prepared = be_int(4);
    prepared.extend(prepared_body());
    let mut cur: &[u8] = &prepared;
    assert!(matches!(deserialize(&mut cur), Ok(CqlResult::Prepared(_))));

    let schema_change = be_int(5);
    let mut cur: &[u8] = &schema_change;
    assert!(matches!(
        deserialize(&mut cur),
        Ok(CqlResult::SchemaChange(_))
    ));

    for unknown in [0, 6, -1] {
        let body = be_int(unknown);
        let mut cur: &[u8] = &body;
        assert_eq!(
            deserialize(&mut cur).unwrap_err(),
            ParseError::UnknownResultKind(unknown)
        );
        assert_eq!(cur, &body[..]);
    }
    let nothing: [u8; 2] = [0, 0];
    let mut cur: &[u8] = &nothing;
    assert_eq!(deserialize(&mut cur).unwrap_err(), ParseError::UnexpectedEof);
    let mut cur: &[u8] = &nothing;
    assert!(deser_set_keyspace(&mut cur).is_ok());
    assert!(deser_schema_change(&mut cur).is_ok());
    assert_eq!(cur, &nothing[..]);
}

#[test]
fn value_accessors_tell_the_kinds_apart() {
    let v = CQLValue::CqlSet(vec![CQLValue::Int(1)]);
    assert!(v.as_int().is_none());
    assert!(v.as_bigint().is_none());
    assert!(v.as_text().is_none());
    assert!(v.as_ascii().is_none());
    assert!(v.as_inet().is_none());
    assert_eq!(v.as_set().map(|s| s.len()), Some(1));
    assert_eq!(CQLValue::Text("t".to_string()).into_string(), Some("t".to_string()));
    assert_eq!(CQLValue::Int(1).into_string(), None);
    assert!(CQLValue::Int(1).into_set().is_none());
}

#[test]
fn rows_of_a_select_after_two_inserts() {
    // What SELECT a, b, c returns after (42, 7, "one") and (43, 7, "two") were inserted.
    let mut body = be_int(2);
    body.extend(abc_metadata(0x0001));
    body.extend(be_int(2));
    for (a, c) in [(42, "one"), (43, "two")] {
        body.extend(int_bytes(&be_int(a)));
        body.extend(int_bytes(&be_int(7)));
        body.extend(int_bytes(c.as_bytes()));
    }
    let mut cur: &[u8] = &body;
    let rows = match deserialize(&mut cur) {
        Ok(CqlResult::Rows(rows)) => rows,
        other => panic!("unexpected {:?}", other),
    };
    assert!(cur.is_empty());
    assert_eq!(rows.rows.len(), 2);
    let seen: Vec<(i32, i32, String)> = rows
        .rows
        .iter()
        .map(|row| {
            (
                row.columns[0].as_ref().unwrap().as_int().unwrap(),
                row.columns[1].as_ref().unwrap().as_int().unwrap(),
                row.columns[2].as_ref().unwrap().as_text().unwrap().clone(),
            )
        })
        .collect();
    assert_eq!(
        seen,
        vec![(42, 7, "one".to_string()), (43, 7, "two".to_string())]
    );
}
