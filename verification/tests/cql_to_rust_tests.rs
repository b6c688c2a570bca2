use scylla::frame::response::cql_to_rust::{
    try_from_cql, FromCQLVal, FromCqlValError, FromRow, FromRowError,
};
use scylla::frame::response::result::{CQLValue, InetAddress, Row};
use scylla::transport::session::IntoTypedRows;

fn text(s: &str) -> CQLValue {
    CQLValue::Text(s.to_string())
}

#[test]
fn values_convert_to_their_rust_types() {
    assert_eq!(<i32 as FromCQLVal<CQLValue>>::from_cql(CQLValue::Int(5)), 5);
    assert_eq!(
        <i64 as FromCQLVal<CQLValue>>::from_cql(CQLValue::BigInt(-6)),
        -6
    );
    assert_eq!(
        <String as FromCQLVal<CQLValue>>::from_cql(text("abc")),
        "abc"
    );
    assert_eq!(
        <String as FromCQLVal<CQLValue>>::from_cql(CQLValue::Ascii("xyz".to_string())),
        "xyz"
    );
    assert_eq!(
        <InetAddress as FromCQLVal<CQLValue>>::from_cql(CQLValue::Inet(InetAddress::V4([
            1, 2, 3, 4
        ]))),
        InetAddress::V4([1, 2, 3, 4])
    );
    assert_eq!(
        <Vec<i32> as FromCQLVal<CQLValue>>::from_cql(CQLValue::CqlSet(vec![
            CQLValue::Int(3),
            CQLValue::Int(1),
            CQLValue::Int(2)
        ])),
        vec![3, 1, 2]
    );
    assert_eq!(
        <Vec<Vec<String>> as FromCQLVal<CQLValue>>::from_cql(CQLValue::CqlSet(vec![
            CQLValue::CqlSet(vec![text("a"), text("b")]),
            CQLValue::CqlSet(vec![]),
        ])),
        vec![vec!["a".to_string(), "b".to_string()], vec![]]
    );
}

#[test]
fn convertibility_is_told_before_converting() {
    assert!(<i32 as FromCQLVal<CQLValue>>::can_convert(&CQLValue::Int(1)));
    assert!(!<i32 as FromCQLVal<CQLValue>>::can_convert(
        &CQLValue::BigInt(1)
    ));
    assert!(!<i64 as FromCQLVal<CQLValue>>::can_convert(&CQLValue::Int(1)));
    assert!(!<String as FromCQLVal<CQLValue>>::can_convert(
        &CQLValue::Int(1)
    ));
    assert!(<Vec<i32> as FromCQLVal<CQLValue>>::can_convert(
        &CQLValue::CqlSet(vec![])
    ));
    assert!(!<Vec<i32> as FromCQLVal<CQLValue>>::can_convert(
        &CQLValue::CqlSet(vec![CQLValue::Int(1), text("x")])
    ));
    assert!(!<Vec<i32> as FromCQLVal<CQLValue>>::can_convert(
        &CQLValue::Int(1)
    ));
    assert_eq!(try_from_cql::<i32>(CQLValue::Int(4)), Ok(4));
    assert_eq!(
        try_from_cql::<i32>(text("4")),
        Err(FromCqlValError::BadCqlType)
    );
}

#[test]
fn nulls_convert_to_options_only() {
    assert_eq!(
        <Option<i32> as FromCQLVal<Option<CQLValue>>>::from_cql(None),
        None
    );
    assert_eq!(
        <Option<i32> as FromCQLVal<Option<CQLValue>>>::from_cql(Some(CQLValue::Int(1))),
        Some(1)
    );
    assert_eq!(
        <i32 as FromCQLVal<Option<CQLValue>>>::from_cql(Some(CQLValue::Int(1))),
        1
    );
    assert!(<Option<i32> as FromCQLVal<Option<CQLValue>>>::can_convert(
        &None
    ));
    assert!(!<i32 as FromCQLVal<Option<CQLValue>>>::can_convert(&None));
    assert!(!<Option<i32> as FromCQLVal<Option<CQLValue>>>::can_convert(
        &Some(text("x"))
    ));
}

fn row(columns: Vec<Option<CQLValue>>) -> Row {
    Row { columns }
}

#[test]
fn rows_convert_to_tuples() {
    assert_eq!(<(i32,)>::from_row(row(vec![Some(CQLValue::Int(3))])), Ok((3,)));
    assert_eq!(
        <(i32, i32, String)>::from_row(row(vec![
            Some(CQLValue::Int(3)),
            Some(CQLValue::Int(4)),
            Some(text("def"))
        ])),
        Ok((3, 4, "def".to_string()))
    );
    assert_eq!(
        <(i32, Option<i32>)>::from_row(row(vec![Some(CQLValue::Int(3)), None])),
        Ok((3, None))
    );
    // Columns beyond those asked for are not looked at.
    assert_eq!(
        <(i32, i64)>::from_row(row(vec![
            Some(CQLValue::Int(3)),
            Some(CQLValue::BigInt(9)),
            Some(text("extra"))
        ])),
        Ok((3, 9))
    );
}

#[test]
fn rows_that_do_not_convert() {
    assert_eq!(
        <(i32, i32)>::from_row(row(vec![Some(CQLValue::Int(3))])),
        Err(FromRowError::WrongRowSize {
            expected: 2,
            actual: 1
        })
    );
    assert_eq!(
        <(i32,)>::from_row(row(vec![])),
        Err(FromRowError::WrongRowSize {
            expected: 1,
            actual: 0
        })
    );
    assert_eq!(
        <(i32, i32, i32)>::from_row(row(vec![
            Some(CQLValue::Int(3)),
            None,
            Some(text("x"))
        ])),
        Err(FromRowError::BadCqlVal {
            err: FromCqlValError::ValIsNull,
            column: 1
        })
    );
    assert_eq!(
        <(i32, String)>::from_row(row(vec![
            Some(text("x")),
            Some(CQLValue::Int(3))
        ])),
        Err(FromRowError::BadCqlVal {
            err: FromCqlValError::BadCqlType,
            column: 0
        })
    );
    assert_eq!(
        <(i32, String, i64)>::from_row(row(vec![
            Some(CQLValue::Int(1)),
            Some(text("x")),
            Some(CQLValue::Int(3))
        ])),
        Err(FromRowError::BadCqlVal {
            err: FromCqlValError::BadCqlType,
            column: 2
        })
    );
}

#[test]
fn rows_of_a_result_as_tuples() {
    let rows = vec![
        row(vec![Some(CQLValue::Int(42)), Some(CQLValue::Int(7)), Some(text("one"))]),
        row(vec![Some(CQLValue::Int(43)), None, Some(text("two"))]),
        row(vec![Some(CQLValue::Int(44))]),
    ];
    let mut typed = rows.into_typed::<(i32, Option<i32>, String)>();
    assert_eq!(typed.next(), Some(Ok((42, Some(7), "one".to_string()))));
    assert_eq!(typed.next(), Some(Ok((43, None, "two".to_string()))));
    assert_eq!(
        typed.next(),
        Some(Err(FromRowError::WrongRowSize {
            expected: 3,
            actual: 1
        }))
    );
    assert_eq!(typed.next(), None);
    assert_eq!(typed.next(), None);
    let mut nothing = Vec::<Row>::new().into_typed::<(i32,)>();
    assert_eq!(nothing.next(), None);
}

#[test]
fn rows_convert_to_long_tuples() {
    let five = row(vec![
        Some(CQLValue::Int(1)),
        Some(text("two")),
        None,
        Some(CQLValue::BigInt(4)),
        Some(CQLValue::Inet(InetAddress::V4([5, 5, 5, 5]))),
    ]);
    assert_eq!(
        <(i32, String, Option<i32>, i64, InetAddress)>::from_row(five),
        Ok((
            1,
            "two".to_string(),
            None,
            4,
            InetAddress::V4([5, 5, 5, 5])
        ))
    );

    let sixteen = row((0..16).map(|i| Some(CQLValue::Int(i))).collect());
    let converted = <(
        i32,
        i32,
        i32,
        i32,
        i32,
        i32,
        i32,
        i32,
        i32,
        i32,
        i32,
        i32,
        i32,
        i32,
        i32,
        i32,
    )>::from_row(sixteen);
    match converted {
        Ok(t) => {
            assert_eq!((t.0, t.1, t.2, t.3, t.4, t.5, t.6, t.7), (0, 1, 2, 3, 4, 5, 6, 7));
            assert_eq!(
                (t.8, t.9, t.10, t.11, t.12, t.13, t.14, t.15),
                (8, 9, 10, 11, 12, 13, 14, 15)
            );
        }
        Err(e) => panic!("sixteen columns did not convert: {:?}", e),
    }
}

#[test]
fn long_tuples_report_the_first_fault() {
    let short = row((0..6).map(|i| Some(CQLValue::Int(i))).collect());
    assert_eq!(
        <(i32, i32, i32, i32, i32, i32, i32)>::from_row(short),
        Err(FromRowError::WrongRowSize {
            expected: 7,
            actual: 6
        })
    );
    let faulty = row(vec![
        Some(CQLValue::Int(0)),
        Some(CQLValue::Int(1)),
        Some(CQLValue::Int(2)),
        None,
        Some(text("four")),
    ]);
    assert_eq!(
        <(i32, i32, i32, i32, i32)>::from_row(faulty),
        Err(FromRowError::BadCqlVal {
            err: FromCqlValError::ValIsNull,
            column: 3
        })
    );
}
