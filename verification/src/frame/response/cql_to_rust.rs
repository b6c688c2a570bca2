//! From values of columns to values of Rust types.

use crate::frame::response::result::{CQLValue, InetAddress, Row};
use vstd::prelude::*;

verus! {

/// Why a value of a column is not a value of the type asked for.
#[derive(Debug, Clone, Copy, PartialEq, Eq, Structural)]
pub enum FromCqlValError {
    /// The value is of another kind.
    BadCqlType,
    /// The value is null.
    ValIsNull,
}

/// A type whose values can be made from `T`: from the value of a column,
/// or from a column that may be null.
pub trait FromCQLVal<T>: Sized {
    /// The value can be converted.
    spec fn convertible(cql_val: T) -> bool;

    /// `r` is what the value converts to.
    spec fn converts(cql_val: T, r: Self) -> bool;

    /// Tells whether the value can be converted.
    fn can_convert(cql_val: &T) -> (r: bool)
        ensures
            r == Self::convertible(*cql_val),
    ;

    /// Converts a value that can be converted.
    fn from_cql(cql_val: T) -> (r: Self)
        requires
            Self::convertible(cql_val),
        ensures
            Self::converts(cql_val, r),
    ;
}

/// Converts a value if it can be converted, and says why not otherwise.
pub fn try_from_cql<T: FromCQLVal<CQLValue>>(cql_val: CQLValue) -> (r: Result<T, FromCqlValError>)
    ensures
        match r {
            Ok(v) => T::convertible(cql_val) && T::converts(cql_val, v),
            Err(e) => !T::convertible(cql_val) && e == FromCqlValError::BadCqlType,
        },
{
    if T::can_convert(&cql_val) {
        Ok(T::from_cql(cql_val))
    } else {
        Err(FromCqlValError::BadCqlType)
    }
}

impl FromCQLVal<CQLValue> for i32 {
    open spec fn convertible(cql_val: CQLValue) -> bool {
        cql_val is Int
    }

    open spec fn converts(cql_val: CQLValue, r: i32) -> bool {
        cql_val == CQLValue::Int(r)
    }

    fn can_convert(cql_val: &CQLValue) -> (r: bool) {
        cql_val.as_int().is_some()
    }

    fn from_cql(cql_val: CQLValue) -> (r: i32) {
        match cql_val.as_int() {
            Some(i) => i,
            None => 0,
        }
    }
}

impl FromCQLVal<CQLValue> for i64 {
    open spec fn convertible(cql_val: CQLValue) -> bool {
        cql_val is BigInt
    }

    open spec fn converts(cql_val: CQLValue, r: i64) -> bool {
        cql_val == CQLValue::BigInt(r)
    }

    fn can_convert(cql_val: &CQLValue) -> (r: bool) {
        cql_val.as_bigint().is_some()
    }

    fn from_cql(cql_val: CQLValue) -> (r: i64) {
        match cql_val.as_bigint() {
            Some(i) => i,
            None => 0,
        }
    }
}

impl FromCQLVal<CQLValue> for String {
    open spec fn convertible(cql_val: CQLValue) -> bool {
        cql_val is Ascii || cql_val is Text
    }

    open spec fn converts(cql_val: CQLValue, r: String) -> bool {
        cql_val == CQLValue::Ascii(r) || cql_val == CQLValue::Text(r)
    }

    fn can_convert(cql_val: &CQLValue) -> (r: bool) {
        cql_val.as_ascii().is_some() || cql_val.as_text().is_some()
    }

    fn from_cql(cql_val: CQLValue) -> (r: String) {
        match cql_val.into_string() {
            Some(s) => s,
            None => String::new(),
        }
    }
}

impl FromCQLVal<CQLValue> for InetAddress {
    open spec fn convertible(cql_val: CQLValue) -> bool {
        cql_val is Inet
    }

    open spec fn converts(cql_val: CQLValue, r: InetAddress) -> bool {
        cql_val == CQLValue::Inet(r)
    }

    fn can_convert(cql_val: &CQLValue) -> (r: bool) {
        cql_val.as_inet().is_some()
    }

    fn from_cql(cql_val: CQLValue) -> (r: InetAddress) {
        match cql_val.as_inet() {
            Some(a) => a,
            None => InetAddress::V4([0, 0, 0, 0]),
        }
    }
}

impl<T: FromCQLVal<CQLValue>> FromCQLVal<CQLValue> for Vec<T> {
    open spec fn convertible(cql_val: CQLValue) -> bool {
        cql_val matches CQLValue::CqlSet(items) && forall|i: int|
            0 <= i < items@.len() ==> T::convertible(#[trigger] items@[i])
    }

    open spec fn converts(cql_val: CQLValue, r: Vec<T>) -> bool {
        cql_val matches CQLValue::CqlSet(items) && r@.len() == items@.len() && forall|i: int|
            0 <= i < items@.len() ==> T::converts(#[trigger] items@[i], r@[i])
    }

    fn can_convert(cql_val: &CQLValue) -> (r: bool) {
        match cql_val.as_set() {
            Some(items) => {
                let mut i: usize = 0;
                while i < items.len()
                    invariant
                        i <= items@.len(),
                        *cql_val == CQLValue::CqlSet(*items),
                        forall|j: int| 0 <= j < i ==> T::convertible(#[trigger] items@[j]),
                    decreases items@.len() - i,
                {
                    if !T::can_convert(&items[i]) {
                        assert(!T::convertible(items@[i as int]));
                        assert(cql_val->CqlSet_0@[i as int] == items@[i as int]);
                        return false;
                    }
                    i += 1;
                }
                true
            },
            None => false,
        }
    }

    fn from_cql(cql_val: CQLValue) -> (r: Vec<T>) {
        let mut out: Vec<T> = Vec::new();
        match cql_val.into_set() {
            Some(items) => {
                let ghost all = items@;
                let mut items = items;
                let mut back: Vec<T> = Vec::new();
                while items.len() > 0
                    invariant
                        items@.len() <= all.len(),
                        items@ == all.take(items@.len() as int),
                        back@.len() == all.len() - items@.len(),
                        forall|i: int| 0 <= i < all.len() ==> T::convertible(#[trigger] all[i]),
                        forall|j: int|
                            0 <= j < back@.len() ==> T::converts(
                                all[all.len() - 1 - j],
                                #[trigger] back@[j],
                            ),
                    decreases items@.len(),
                {
                    match items.pop() {
                        Some(item) => {
                            assert(item == all[items@.len() as int]);
                            back.push(T::from_cql(item));
                            assert(items@ =~= all.take(items@.len() as int));
                        },
                        None => {},
                    }
                }
                while back.len() > 0
                    invariant
                        back@.len() + out@.len() == all.len(),
                        forall|j: int|
                            0 <= j < back@.len() ==> T::converts(
                                all[all.len() - 1 - j],
                                #[trigger] back@[j],
                            ),
                        forall|i: int|
                            0 <= i < out@.len() ==> T::converts(all[i], #[trigger] out@[i]),
                    decreases back@.len(),
                {
                    match back.pop() {
                        Some(v) => {
                            out.push(v);
                        },
                        None => {},
                    }
                }
                out
            },
            None => out,
        }
    }
}

impl<T: FromCQLVal<CQLValue>> FromCQLVal<Option<CQLValue>> for T {
    open spec fn convertible(cql_val_opt: Option<CQLValue>) -> bool {
        cql_val_opt matches Some(cql_val) && T::convertible(cql_val)
    }

    open spec fn converts(cql_val_opt: Option<CQLValue>, r: T) -> bool {
        cql_val_opt matches Some(cql_val) && T::converts(cql_val, r)
    }

    fn can_convert(cql_val_opt: &Option<CQLValue>) -> (r: bool) {
        match cql_val_opt {
            Some(cql_val) => T::can_convert(cql_val),
            None => false,
        }
    }

    fn from_cql(cql_val_opt: Option<CQLValue>) -> (r: T) {
        match cql_val_opt {
            Some(cql_val) => T::from_cql(cql_val),
            None => {
                proof {
                    assert(false);
                }
                unreached()
            },
        }
    }
}

impl<T: FromCQLVal<CQLValue>> FromCQLVal<Option<CQLValue>> for Option<T> {
    open spec fn convertible(cql_val_opt: Option<CQLValue>) -> bool {
        cql_val_opt matches Some(cql_val) ==> T::convertible(cql_val)
    }

    open spec fn converts(cql_val_opt: Option<CQLValue>, r: Option<T>) -> bool {
        match (cql_val_opt, r) {
            (Some(cql_val), Some(v)) => T::converts(cql_val, v),
            (None, None) => true,
            _ => false,
        }
    }

    fn can_convert(cql_val_opt: &Option<CQLValue>) -> (r: bool) {
        match cql_val_opt {
            Some(cql_val) => T::can_convert(cql_val),
            None => true,
        }
    }

    fn from_cql(cql_val_opt: Option<CQLValue>) -> (r: Option<T>) {
        match cql_val_opt {
            Some(cql_val) => Some(T::from_cql(cql_val)),
            None => None,
        }
    }
}

/// Why a row is not a value of the type asked for.
#[derive(Debug, Clone, Copy, PartialEq, Eq, Structural)]
pub enum FromRowError {
    /// The column of this index does not convert.
    BadCqlVal { err: FromCqlValError, column: usize },
    /// The row has fewer columns than the type has parts.
    WrongRowSize { expected: usize, actual: usize },
}

/// A type whose values can be made from rows.
pub trait FromRow: Sized {
    /// What keeps the row from being converted, if anything.
    spec fn row_fault(row: Row) -> Option<FromRowError>;

    /// `r` is what the row converts to.
    spec fn row_converts(row: Row, r: Self) -> bool;

    /// Converts a row.
    fn from_row(row: Row) -> (r: Result<Self, FromRowError>)
        ensures
            match r {
                Ok(v) => Self::row_fault(row) is None && Self::row_converts(row, v),
                Err(e) => Self::row_fault(row) == Some(e),
            },
    ;
}

/// What keeps a column from being converted to `T`, if anything: a null
/// where `T` has no place for one, or a value of another kind.
pub open spec fn column_fault<T: FromCQLVal<Option<CQLValue>>>(
    columns: Seq<Option<CQLValue>>,
    column: int,
) -> Option<FromRowError> {
    if T::convertible(columns[column]) {
        None
    } else {
        Some(
            FromRowError::BadCqlVal {
                err: if columns[column] is None {
                    FromCqlValError::ValIsNull
                } else {
                    FromCqlValError::BadCqlType
                },
                column: column as usize,
            },
        )
    }
}

/// What keeps a row from having the `expected` columns that a type asks
/// for, if anything. Columns beyond them are not looked at.
pub open spec fn size_fault(columns: Seq<Option<CQLValue>>, expected: usize) -> Option<
    FromRowError,
> {
    if columns.len() < expected {
        Some(FromRowError::WrongRowSize { expected, actual: columns.len() as usize })
    } else {
        None
    }
}

/// Takes the first `count` columns of a row, last column first.
fn take_columns(row: Row, count: usize) -> (r: Result<Vec<Option<CQLValue>>, FromRowError>)
    ensures
        match r {
            Ok(columns) => size_fault(row.columns@, count) is None && columns@.len() == count
                && forall|i: int|
                0 <= i < count ==> columns@[count - 1 - i] == #[trigger] row.columns@[i],
            Err(e) => size_fault(row.columns@, count) == Some(e),
        },
{
    let mut columns = row.columns;
    let actual = columns.len();
    if actual < count {
        return Err(FromRowError::WrongRowSize { expected: count, actual });
    }
    columns.truncate(count);
    let ghost front = columns@;
    let mut back: Vec<Option<CQLValue>> = Vec::new();
    while columns.len() > 0
        invariant
            columns@.len() + back@.len() == count,
            front.len() == count,
            columns@ == front.take(columns@.len() as int),
            forall|j: int| 0 <= j < back@.len() ==> back@[j] == front[count - 1 - j],
        decreases columns@.len(),
    {
        match columns.pop() {
            Some(column) => {
                back.push(column);
                assert(columns@ =~= front.take(columns@.len() as int));
            },
            None => {},
        }
    }
    Ok(back)
}

/// Converts the column of index `column`, which is the last of `columns`.
fn convert_last<T: FromCQLVal<Option<CQLValue>>>(
    columns: &mut Vec<Option<CQLValue>>,
    all: Ghost<Seq<Option<CQLValue>>>,
    column: usize,
) -> (r: Result<T, FromRowError>)
    requires
        old(columns)@.len() > 0,
        column < all@.len(),
        old(columns)@.last() == all@[column as int],
    ensures
        final(columns)@ == old(columns)@.drop_last(),
        match r {
            Ok(v) => column_fault::<T>(all@, column as int) is None && T::converts(
                all@[column as int],
                v,
            ),
            Err(e) => column_fault::<T>(all@, column as int) == Some(e),
        },
{
    match columns.pop() {
        Some(value) => {
            if T::can_convert(&value) {
                Ok(T::from_cql(value))
            } else if value.is_none() {
                Err(FromRowError::BadCqlVal { err: FromCqlValError::ValIsNull, column })
            } else {
                Err(FromRowError::BadCqlVal { err: FromCqlValError::BadCqlType, column })
            }
        },
        None => Err(FromRowError::WrongRowSize { expected: column, actual: 0 }),
    }
}

// A row converts to a tuple part by part: the first column gives the first
// part, and so on. Tuples of one to sixteen parts are made from rows. The
// fault of a row is that it is too short or, else, that of its first column
// that does not convert.
impl<T1: FromCQLVal<Option<CQLValue>>> FromRow for (T1, ) {
    open spec fn row_fault(row: Row) -> Option<FromRowError> {
        let columns = row.columns@;
        if size_fault(columns, 1) is Some {
            size_fault(columns, 1)
        } else {
            column_fault::<T1>(columns, 0)
        }
    }

    open spec fn row_converts(row: Row, r: Self) -> bool {
        &&& T1::converts(row.columns@[0], r.0)
    }

    fn from_row(row: Row) -> (r: Result<Self, FromRowError>) {
        let mut columns = take_columns(row, 1)?;
        let v1 = convert_last::<T1>(&mut columns, Ghost(row.columns@), 0)?;
        Ok((v1, ))
    }
}

impl<T1: FromCQLVal<Option<CQLValue>>, T2: FromCQLVal<Option<CQLValue>>> FromRow for (T1, T2) {
    open spec fn row_fault(row: Row) -> Option<FromRowError> {
        let columns = row.columns@;
        if size_fault(columns, 2) is Some {
            size_fault(columns, 2)
        } else if column_fault::<T1>(columns, 0) is Some {
            column_fault::<T1>(columns, 0)
        } else {
            column_fault::<T2>(columns, 1)
        }
    }

    open spec fn row_converts(row: Row, r: Self) -> bool {
        &&& T1::converts(row.columns@[0], r.0)
        &&& T2::converts(row.columns@[1], r.1)
    }

    fn from_row(row: Row) -> (r: Result<Self, FromRowError>) {
        let mut columns = take_columns(row, 2)?;
        let v1 = convert_last::<T1>(&mut columns, Ghost(row.columns@), 0)?;
        let v2 = convert_last::<T2>(&mut columns, Ghost(row.columns@), 1)?;
        Ok((v1, v2))
    }
}

impl<
    T1: FromCQLVal<Option<CQLValue>>,
    T2: FromCQLVal<Option<CQLValue>>,
    T3: FromCQLVal<Option<CQLValue>>,
> FromRow for (T1, T2, T3) {
    open spec fn row_fault(row: Row) -> Option<FromRowError> {
        let columns = row.columns@;
        if size_fault(columns, 3) is Some {
            size_fault(columns, 3)
        } else if column_fault::<T1>(columns, 0) is Some {
            column_fault::<T1>(columns, 0)
        } else if column_fault::<T2>(columns, 1) is Some {
            column_fault::<T2>(columns, 1)
        } else {
            column_fault::<T3>(columns, 2)
        }
    }

    open spec fn row_converts(row: Row, r: Self) -> bool {
        &&& T1::converts(row.columns@[0], r.0)
        &&& T2::converts(row.columns@[1], r.1)
        &&& T3::converts(row.columns@[2], r.2)
    }

    fn from_row(row: Row) -> (r: Result<Self, FromRowError>) {
        let mut columns = take_columns(row, 3)?;
        let v1 = convert_last::<T1>(&mut columns, Ghost(row.columns@), 0)?;
        let v2 = convert_last::<T2>(&mut columns, Ghost(row.columns@), 1)?;
        let v3 = convert_last::<T3>(&mut columns, Ghost(row.columns@), 2)?;
        Ok((v1, v2, v3))
    }
}

impl<
    T1: FromCQLVal<Option<CQLValue>>,
    T2: FromCQLVal<Option<CQLValue>>,
    T3: FromCQLVal<Option<CQLValue>>,
    T4: FromCQLVal<Option<CQLValue>>,
> FromRow for (T1, T2, T3, T4) {
    open spec fn row_fault(row: Row) -> Option<FromRowError> {
        let columns = row.columns@;
        if size_fault(columns, 4) is Some {
            size_fault(columns, 4)
        } else if column_fault::<T1>(columns, 0) is Some {
            column_fault::<T1>(columns, 0)
        } else if column_fault::<T2>(columns, 1) is Some {
            column_fault::<T2>(columns, 1)
        } else if column_fault::<T3>(columns, 2) is Some {
            column_fault::<T3>(columns, 2)
        } else {
            column_fault::<T4>(columns, 3)
        }
    }

    open spec fn row_converts(row: Row, r: Self) -> bool {
        &&& T1::converts(row.columns@[0], r.0)
        &&& T2::converts(row.columns@[1], r.1)
        &&& T3::converts(row.columns@[2], r.2)
        &&& T4::converts(row.columns@[3], r.3)
    }

    fn from_row(row: Row) -> (r: Result<Self, FromRowError>) {
        let mut columns = take_columns(row, 4)?;
        let v1 = convert_last::<T1>(&mut columns, Ghost(row.columns@), 0)?;
        let v2 = convert_last::<T2>(&mut columns, Ghost(row.columns@), 1)?;
        let v3 = convert_last::<T3>(&mut columns, Ghost(row.columns@), 2)?;
        let v4 = convert_last::<T4>(&mut columns, Ghost(row.columns@), 3)?;
        Ok((v1, v2, v3, v4))
    }
}

impl<
    T1: FromCQLVal<Option<CQLValue>>,
    T2: FromCQLVal<Option<CQLValue>>,
    T3: FromCQLVal<Option<CQLValue>>,
    T4: FromCQLVal<Option<CQLValue>>,
    T5: FromCQLVal<Option<CQLValue>>,
> FromRow for (T1, T2, T3, T4, T5) {
    open spec fn row_fault(row: Row) -> Option<FromRowError> {
        let columns = row.columns@;
        if size_fault(columns, 5) is Some {
            size_fault(columns, 5)
        } else if column_fault::<T1>(columns, 0) is Some {
            column_fault::<T1>(columns, 0)
        } else if column_fault::<T2>(columns, 1) is Some {
            column_fault::<T2>(columns, 1)
        } else if column_fault::<T3>(columns, 2) is Some {
            column_fault::<T3>(columns, 2)
        } else if column_fault::<T4>(columns, 3) is Some {
            column_fault::<T4>(columns, 3)
        } else {
            column_fault::<T5>(columns, 4)
        }
    }

    open spec fn row_converts(row: Row, r: Self) -> bool {
        &&& T1::converts(row.columns@[0], r.0)
        &&& T2::converts(row.columns@[1], r.1)
        &&& T3::converts(row.columns@[2], r.2)
        &&& T4::converts(row.columns@[3], r.3)
        &&& T5::converts(row.columns@[4], r.4)
    }

    fn from_row(row: Row) -> (r: Result<Self, FromRowError>) {
        let mut columns = take_columns(row, 5)?;
        let v1 = convert_last::<T1>(&mut columns, Ghost(row.columns@), 0)?;
        let v2 = convert_last::<T2>(&mut columns, Ghost(row.columns@), 1)?;
        let v3 = convert_last::<T3>(&mut columns, Ghost(row.columns@), 2)?;
        let v4 = convert_last::<T4>(&mut columns, Ghost(row.columns@), 3)?;
        let v5 = convert_last::<T5>(&mut columns, Ghost(row.columns@), 4)?;
        Ok((v1, v2, v3, v4, v5))
    }
}

impl<
    T1: FromCQLVal<Option<CQLValue>>,
    T2: FromCQLVal<Option<CQLValue>>,
    T3: FromCQLVal<Option<CQLValue>>,
    T4: FromCQLVal<Option<CQLValue>>,
    T5: FromCQLVal<Option<CQLValue>>,
    T6: FromCQLVal<Option<CQLValue>>,
> FromRow for (T1, T2, T3, T4, T5, T6) {
    open spec fn row_fault(row: Row) -> Option<FromRowError> {
        let columns = row.columns@;
        if size_fault(columns, 6) is Some {
            size_fault(columns, 6)
        } else if column_fault::<T1>(columns, 0) is Some {
            column_fault::<T1>(columns, 0)
        } else if column_fault::<T2>(columns, 1) is Some {
            column_fault::<T2>(columns, 1)
        } else if column_fault::<T3>(columns, 2) is Some {
            column_fault::<T3>(columns, 2)
        } else if column_fault::<T4>(columns, 3) is Some {
            column_fault::<T4>(columns, 3)
        } else if column_fault::<T5>(columns, 4) is Some {
            column_fault::<T5>(columns, 4)
        } else {
            column_fault::<T6>(columns, 5)
        }
    }

    open spec fn row_converts(row: Row, r: Self) -> bool {
        &&& T1::converts(row.columns@[0], r.0)
        &&& T2::converts(row.columns@[1], r.1)
        &&& T3::converts(row.columns@[2], r.2)
        &&& T4::converts(row.columns@[3], r.3)
        &&& T5::converts(row.columns@[4], r.4)
        &&& T6::converts(row.columns@[5], r.5)
    }

    fn from_row(row: Row) -> (r: Result<Self, FromRowError>) {
        let mut columns = take_columns(row, 6)?;
        let v1 = convert_last::<T1>(&mut columns, Ghost(row.columns@), 0)?;
        let v2 = convert_last::<T2>(&mut columns, Ghost(row.columns@), 1)?;
        let v3 = convert_last::<T3>(&mut columns, Ghost(row.columns@), 2)?;
        let v4 = convert_last::<T4>(&mut columns, Ghost(row.columns@), 3)?;
        let v5 = convert_last::<T5>(&mut columns, Ghost(row.columns@), 4)?;
        let v6 = convert_last::<T6>(&mut columns, Ghost(row.columns@), 5)?;
        Ok((v1, v2, v3, v4, v5, v6))
    }
}

impl<
    T1: FromCQLVal<Option<CQLValue>>,
    T2: FromCQLVal<Option<CQLValue>>,
    T3: FromCQLVal<Option<CQLValue>>,
    T4: FromCQLVal<Option<CQLValue>>,
    T5: FromCQLVal<Option<CQLValue>>,
    T6: FromCQLVal<Option<CQLValue>>,
    T7: FromCQLVal<Option<CQLValue>>,
> FromRow for (T1, T2, T3, T4, T5, T6, T7) {
    open spec fn row_fault(row: Row) -> Option<FromRowError> {
        let columns = row.columns@;
        if size_fault(columns, 7) is Some {
            size_fault(columns, 7)
        } else if column_fault::<T1>(columns, 0) is Some {
            column_fault::<T1>(columns, 0)
        } else if column_fault::<T2>(columns, 1) is Some {
            column_fault::<T2>(columns, 1)
        } else if column_fault::<T3>(columns, 2) is Some {
            column_fault::<T3>(columns, 2)
        } else if column_fault::<T4>(columns, 3) is Some {
            column_fault::<T4>(columns, 3)
        } else if column_fault::<T5>(columns, 4) is Some {
            column_fault::<T5>(columns, 4)
        } else if column_fault::<T6>(columns, 5) is Some {
            column_fault::<T6>(columns, 5)
        } else {
            column_fault::<T7>(columns, 6)
        }
    }

    open spec fn row_converts(row: Row, r: Self) -> bool {
        &&& T1::converts(row.columns@[0], r.0)
        &&& T2::converts(row.columns@[1], r.1)
        &&& T3::converts(row.columns@[2], r.2)
        &&& T4::converts(row.columns@[3], r.3)
        &&& T5::converts(row.columns@[4], r.4)
        &&& T6::converts(row.columns@[5], r.5)
        &&& T7::converts(row.columns@[6], r.6)
    }

    fn from_row(row: Row) -> (r: Result<Self, FromRowError>) {
        let mut columns = take_columns(row, 7)?;
        let v1 = convert_last::<T1>(&mut columns, Ghost(row.columns@), 0)?;
        let v2 = convert_last::<T2>(&mut columns, Ghost(row.columns@), 1)?;
        let v3 = convert_last::<T3>(&mut columns, Ghost(row.columns@), 2)?;
        let v4 = convert_last::<T4>(&mut columns, Ghost(row.columns@), 3)?;
        let v5 = convert_last::<T5>(&mut columns, Ghost(row.columns@), 4)?;
        let v6 = convert_last::<T6>(&mut columns, Ghost(row.columns@), 5)?;
        let v7 = convert_last::<T7>(&mut columns, Ghost(row.columns@), 6)?;
        Ok((v1, v2, v3, v4, v5, v6, v7))
    }
}

impl<
    T1: FromCQLVal<Option<CQLValue>>,
    T2: FromCQLVal<Option<CQLValue>>,
    T3: FromCQLVal<Option<CQLValue>>,
    T4: FromCQLVal<Option<CQLValue>>,
    T5: FromCQLVal<Option<CQLValue>>,
    T6: FromCQLVal<Option<CQLValue>>,
    T7: FromCQLVal<Option<CQLValue>>,
    T8: FromCQLVal<Option<CQLValue>>,
> FromRow for (T1, T2, T3, T4, T5, T6, T7, T8) {
    open spec fn row_fault(row: Row) -> Option<FromRowError> {
        let columns = row.columns@;
        if size_fault(columns, 8) is Some {
            size_fault(columns, 8)
        } else if column_fault::<T1>(columns, 0) is Some {
            column_fault::<T1>(columns, 0)
        } else if column_fault::<T2>(columns, 1) is Some {
            column_fault::<T2>(columns, 1)
        } else if column_fault::<T3>(columns, 2) is Some {
            column_fault::<T3>(columns, 2)
        } else if column_fault::<T4>(columns, 3) is Some {
            column_fault::<T4>(columns, 3)
        } else if column_fault::<T5>(columns, 4) is Some {
            column_fault::<T5>(columns, 4)
        } else if column_fault::<T6>(columns, 5) is Some {
            column_fault::<T6>(columns, 5)
        } else if column_fault::<T7>(columns, 6) is Some {
            column_fault::<T7>(columns, 6)
        } else {
            column_fault::<T8>(columns, 7)
        }
    }

    open spec fn row_converts(row: Row, r: Self) -> bool {
        &&& T1::converts(row.columns@[0], r.0)
        &&& T2::converts(row.columns@[1], r.1)
        &&& T3::converts(row.columns@[2], r.2)
        &&& T4::converts(row.columns@[3], r.3)
        &&& T5::converts(row.columns@[4], r.4)
        &&& T6::converts(row.columns@[5], r.5)
        &&& T7::converts(row.columns@[6], r.6)
        &&& T8::converts(row.columns@[7], r.7)
    }

    fn from_row(row: Row) -> (r: Result<Self, FromRowError>) {
        let mut columns = take_columns(row, 8)?;
        let v1 = convert_last::<T1>(&mut columns, Ghost(row.columns@), 0)?;
        let v2 = convert_last::<T2>(&mut columns, Ghost(row.columns@), 1)?;
        let v3 = convert_last::<T3>(&mut columns, Ghost(row.columns@), 2)?;
        let v4 = convert_last::<T4>(&mut columns, Ghost(row.columns@), 3)?;
        let v5 = convert_last::<T5>(&mut columns, Ghost(row.columns@), 4)?;
        let v6 = convert_last::<T6>(&mut columns, Ghost(row.columns@), 5)?;
        let v7 = convert_last::<T7>(&mut columns, Ghost(row.columns@), 6)?;
        let v8 = convert_last::<T8>(&mut columns, Ghost(row.columns@), 7)?;
        Ok((v1, v2, v3, v4, v5, v6, v7, v8))
    }
}

impl<
    T1: FromCQLVal<Option<CQLValue>>,
    T2: FromCQLVal<Option<CQLValue>>,
    T3: FromCQLVal<Option<CQLValue>>,
    T4: FromCQLVal<Option<CQLValue>>,
    T5: FromCQLVal<Option<CQLValue>>,
    T6: FromCQLVal<Option<CQLValue>>,
    T7: FromCQLVal<Option<CQLValue>>,
    T8: FromCQLVal<Option<CQLValue>>,
    T9: FromCQLVal<Option<CQLValue>>,
> FromRow for (T1, T2, T3, T4, T5, T6, T7, T8, T9) {
    open spec fn row_fault(row: Row) -> Option<FromRowError> {
        let columns = row.columns@;
        if size_fault(columns, 9) is Some {
            size_fault(columns, 9)
        } else if column_fault::<T1>(columns, 0) is Some {
            column_fault::<T1>(columns, 0)
        } else if column_fault::<T2>(columns, 1) is Some {
            column_fault::<T2>(columns, 1)
        } else if column_fault::<T3>(columns, 2) is Some {
            column_fault::<T3>(columns, 2)
        } else if column_fault::<T4>(columns, 3) is Some {
            column_fault::<T4>(columns, 3)
        } else if column_fault::<T5>(columns, 4) is Some {
            column_fault::<T5>(columns, 4)
        } else if column_fault::<T6>(columns, 5) is Some {
            column_fault::<T6>(columns, 5)
        } else if column_fault::<T7>(columns, 6) is Some {
            column_fault::<T7>(columns, 6)
        } else if column_fault::<T8>(columns, 7) is Some {
            column_fault::<T8>(columns, 7)
        } else {
            column_fault::<T9>(columns, 8)
        }
    }

    open spec fn row_converts(row: Row, r: Self) -> bool {
        &&& T1::converts(row.columns@[0], r.0)
        &&& T2::converts(row.columns@[1], r.1)
        &&& T3::converts(row.columns@[2], r.2)
        &&& T4::converts(row.columns@[3], r.3)
        &&& T5::converts(row.columns@[4], r.4)
        &&& T6::converts(row.columns@[5], r.5)
        &&& T7::converts(row.columns@[6], r.6)
        &&& T8::converts(row.columns@[7], r.7)
        &&& T9::converts(row.columns@[8], r.8)
    }

    fn from_row(row: Row) -> (r: Result<Self, FromRowError>) {
        let mut columns = take_columns(row, 9)?;
        let v1 = convert_last::<T1>(&mut columns, Ghost(row.columns@), 0)?;
        let v2 = convert_last::<T2>(&mut columns, Ghost(row.columns@), 1)?;
        let v3 = convert_last::<T3>(&mut columns, Ghost(row.columns@), 2)?;
        let v4 = convert_last::<T4>(&mut columns, Ghost(row.columns@), 3)?;
        let v5 = convert_last::<T5>(&mut columns, Ghost(row.columns@), 4)?;
        let v6 = convert_last::<T6>(&mut columns, Ghost(row.columns@), 5)?;
        let v7 = convert_last::<T7>(&mut columns, Ghost(row.columns@), 6)?;
        let v8 = convert_last::<T8>(&mut columns, Ghost(row.columns@), 7)?;
        let v9 = convert_last::<T9>(&mut columns, Ghost(row.columns@), 8)?;
        Ok((v1, v2, v3, v4, v5, v6, v7, v8, v9))
    }
}

impl<
    T1: FromCQLVal<Option<CQLValue>>,
    T2: FromCQLVal<Option<CQLValue>>,
    T3: FromCQLVal<Option<CQLValue>>,
    T4: FromCQLVal<Option<CQLValue>>,
    T5: FromCQLVal<Option<CQLValue>>,
    T6: FromCQLVal<Option<CQLValue>>,
    T7: FromCQLVal<Option<CQLValue>>,
    T8: FromCQLVal<Option<CQLValue>>,
    T9: FromCQLVal<Option<CQLValue>>,
    T10: FromCQLVal<Option<CQLValue>>,
> FromRow for (T1, T2, T3, T4, T5, T6, T7, T8, T9, T10) {
    open spec fn row_fault(row: Row) -> Option<FromRowError> {
        let columns = row.columns@;
        if size_fault(columns, 10) is Some {
            size_fault(columns, 10)
        } else if column_fault::<T1>(columns, 0) is Some {
            column_fault::<T1>(columns, 0)
        } else if column_fault::<T2>(columns, 1) is Some {
            column_fault::<T2>(columns, 1)
        } else if column_fault::<T3>(columns, 2) is Some {
            column_fault::<T3>(columns, 2)
        } else if column_fault::<T4>(columns, 3) is Some {
            column_fault::<T4>(columns, 3)
        } else if column_fault::<T5>(columns, 4) is Some {
            column_fault::<T5>(columns, 4)
        } else if column_fault::<T6>(columns, 5) is Some {
            column_fault::<T6>(columns, 5)
        } else if column_fault::<T7>(columns, 6) is Some {
            column_fault::<T7>(columns, 6)
        } else if column_fault::<T8>(columns, 7) is Some {
            column_fault::<T8>(columns, 7)
        } else if column_fault::<T9>(columns, 8) is Some {
            column_fault::<T9>(columns, 8)
        } else {
            column_fault::<T10>(columns, 9)
        }
    }

    open spec fn row_converts(row: Row, r: Self) -> bool {
        &&& T1::converts(row.columns@[0], r.0)
        &&& T2::converts(row.columns@[1], r.1)
        &&& T3::converts(row.columns@[2], r.2)
        &&& T4::converts(row.columns@[3], r.3)
        &&& T5::converts(row.columns@[4], r.4)
        &&& T6::converts(row.columns@[5], r.5)
        &&& T7::converts(row.columns@[6], r.6)
        &&& T8::converts(row.columns@[7], r.7)
        &&& T9::converts(row.columns@[8], r.8)
        &&& T10::converts(row.columns@[9], r.9)
    }

    fn from_row(row: Row) -> (r: Result<Self, FromRowError>) {
        let mut columns = take_columns(row, 10)?;
        let v1 = convert_last::<T1>(&mut columns, Ghost(row.columns@), 0)?;
        let v2 = convert_last::<T2>(&mut columns, Ghost(row.columns@), 1)?;
        let v3 = convert_last::<T3>(&mut columns, Ghost(row.columns@), 2)?;
        let v4 = convert_last::<T4>(&mut columns, Ghost(row.columns@), 3)?;
        let v5 = convert_last::<T5>(&mut columns, Ghost(row.columns@), 4)?;
        let v6 = convert_last::<T6>(&mut columns, Ghost(row.columns@), 5)?;
        let v7 = convert_last::<T7>(&mut columns, Ghost(row.columns@), 6)?;
        let v8 = convert_last::<T8>(&mut columns, Ghost(row.columns@), 7)?;
        let v9 = convert_last::<T9>(&mut columns, Ghost(row.columns@), 8)?;
        let v10 = convert_last::<T10>(&mut columns, Ghost(row.columns@), 9)?;
        Ok((v1, v2, v3, v4, v5, v6, v7, v8, v9, v10))
    }
}

impl<
    T1: FromCQLVal<Option<CQLValue>>,
    T2: FromCQLVal<Option<CQLValue>>,
    T3: FromCQLVal<Option<CQLValue>>,
    T4: FromCQLVal<Option<CQLValue>>,
    T5: FromCQLVal<Option<CQLValue>>,
    T6: FromCQLVal<Option<CQLValue>>,
    T7: FromCQLVal<Option<CQLValue>>,
    T8: FromCQLVal<Option<CQLValue>>,
    T9: FromCQLVal<Option<CQLValue>>,
    T10: FromCQLVal<Option<CQLValue>>,
    T11: FromCQLVal<Option<CQLValue>>,
> FromRow for (T1, T2, T3, T4, T5, T6, T7, T8, T9, T10, T11) {
    open spec fn row_fault(row: Row) -> Option<FromRowError> {
        let columns = row.columns@;
        if size_fault(columns, 11) is Some {
            size_fault(columns, 11)
        } else if column_fault::<T1>(columns, 0) is Some {
            column_fault::<T1>(columns, 0)
        } else if column_fault::<T2>(columns, 1) is Some {
            column_fault::<T2>(columns, 1)
        } else if column_fault::<T3>(columns, 2) is Some {
            column_fault::<T3>(columns, 2)
        } else if column_fault::<T4>(columns, 3) is Some {
            column_fault::<T4>(columns, 3)
        } else if column_fault::<T5>(columns, 4) is Some {
            column_fault::<T5>(columns, 4)
        } else if column_fault::<T6>(columns, 5) is Some {
            column_fault::<T6>(columns, 5)
        } else if column_fault::<T7>(columns, 6) is Some {
            column_fault::<T7>(columns, 6)
        } else if column_fault::<T8>(columns, 7) is Some {
            column_fault::<T8>(columns, 7)
        } else if column_fault::<T9>(columns, 8) is Some {
            column_fault::<T9>(columns, 8)
        } else if column_fault::<T10>(columns, 9) is Some {
            column_fault::<T10>(columns, 9)
        } else {
            column_fault::<T11>(columns, 10)
        }
    }

    open spec fn row_converts(row: Row, r: Self) -> bool {
        &&& T1::converts(row.columns@[0], r.0)
        &&& T2::converts(row.columns@[1], r.1)
        &&& T3::converts(row.columns@[2], r.2)
        &&& T4::converts(row.columns@[3], r.3)
        &&& T5::converts(row.columns@[4], r.4)
        &&& T6::converts(row.columns@[5], r.5)
        &&& T7::converts(row.columns@[6], r.6)
        &&& T8::converts(row.columns@[7], r.7)
        &&& T9::converts(row.columns@[8], r.8)
        &&& T10::converts(row.columns@[9], r.9)
        &&& T11::converts(row.columns@[10], r.10)
    }

    fn from_row(row: Row) -> (r: Result<Self, FromRowError>) {
        let mut columns = take_columns(row, 11)?;
        let v1 = convert_last::<T1>(&mut columns, Ghost(row.columns@), 0)?;
        let v2 = convert_last::<T2>(&mut columns, Ghost(row.columns@), 1)?;
        let v3 = convert_last::<T3>(&mut columns, Ghost(row.columns@), 2)?;
        let v4 = convert_last::<T4>(&mut columns, Ghost(row.columns@), 3)?;
        let v5 = convert_last::<T5>(&mut columns, Ghost(row.columns@), 4)?;
        let v6 = convert_last::<T6>(&mut columns, Ghost(row.columns@), 5)?;
        let v7 = convert_last::<T7>(&mut columns, Ghost(row.columns@), 6)?;
        let v8 = convert_last::<T8>(&mut columns, Ghost(row.columns@), 7)?;
        let v9 = convert_last::<T9>(&mut columns, Ghost(row.columns@), 8)?;
        let v10 = convert_last::<T10>(&mut columns, Ghost(row.columns@), 9)?;
        let v11 = convert_last::<T11>(&mut columns, Ghost(row.columns@), 10)?;
        Ok((v1, v2, v3, v4, v5, v6, v7, v8, v9, v10, v11))
    }
}

impl<
    T1: FromCQLVal<Option<CQLValue>>,
    T2: FromCQLVal<Option<CQLValue>>,
    T3: FromCQLVal<Option<CQLValue>>,
    T4: FromCQLVal<Option<CQLValue>>,
    T5: FromCQLVal<Option<CQLValue>>,
    T6: FromCQLVal<Option<CQLValue>>,
    T7: FromCQLVal<Option<CQLValue>>,
    T8: FromCQLVal<Option<CQLValue>>,
    T9: FromCQLVal<Option<CQLValue>>,
    T10: FromCQLVal<Option<CQLValue>>,
    T11: FromCQLVal<Option<CQLValue>>,
    T12: FromCQLVal<Option<CQLValue>>,
> FromRow for (T1, T2, T3, T4, T5, T6, T7, T8, T9, T10, T11, T12) {
    open spec fn row_fault(row: Row) -> Option<FromRowError> {
        let columns = row.columns@;
        if size_fault(columns, 12) is Some {
            size_fault(columns, 12)
        } else if column_fault::<T1>(columns, 0) is Some {
            column_fault::<T1>(columns, 0)
        } else if column_fault::<T2>(columns, 1) is Some {
            column_fault::<T2>(columns, 1)
        } else if column_fault::<T3>(columns, 2) is Some {
            column_fault::<T3>(columns, 2)
        } else if column_fault::<T4>(columns, 3) is Some {
            column_fault::<T4>(columns, 3)
        } else if column_fault::<T5>(columns, 4) is Some {
            column_fault::<T5>(columns, 4)
        } else if column_fault::<T6>(columns, 5) is Some {
            column_fault::<T6>(columns, 5)
        } else if column_fault::<T7>(columns, 6) is Some {
            column_fault::<T7>(columns, 6)
        } else if column_fault::<T8>(columns, 7) is Some {
            column_fault::<T8>(columns, 7)
        } else if column_fault::<T9>(columns, 8) is Some {
            column_fault::<T9>(columns, 8)
        } else if column_fault::<T10>(columns, 9) is Some {
            column_fault::<T10>(columns, 9)
        } else if column_fault::<T11>(columns, 10) is Some {
            column_fault::<T11>(columns, 10)
        } else {
            column_fault::<T12>(columns, 11)
        }
    }

    open spec fn row_converts(row: Row, r: Self) -> bool {
        &&& T1::converts(row.columns@[0], r.0)
        &&& T2::converts(row.columns@[1], r.1)
        &&& T3::converts(row.columns@[2], r.2)
        &&& T4::converts(row.columns@[3], r.3)
        &&& T5::converts(row.columns@[4], r.4)
        &&& T6::converts(row.columns@[5], r.5)
        &&& T7::converts(row.columns@[6], r.6)
        &&& T8::converts(row.columns@[7], r.7)
        &&& T9::converts(row.columns@[8], r.8)
        &&& T10::converts(row.columns@[9], r.9)
        &&& T11::converts(row.columns@[10], r.10)
        &&& T12::converts(row.columns@[11], r.11)
    }

    fn from_row(row: Row) -> (r: Result<Self, FromRowError>) {
        let mut columns = take_columns(row, 12)?;
        let v1 = convert_last::<T1>(&mut columns, Ghost(row.columns@), 0)?;
        let v2 = convert_last::<T2>(&mut columns, Ghost(row.columns@), 1)?;
        let v3 = convert_last::<T3>(&mut columns, Ghost(row.columns@), 2)?;
        let v4 = convert_last::<T4>(&mut columns, Ghost(row.columns@), 3)?;
        let v5 = convert_last::<T5>(&mut columns, Ghost(row.columns@), 4)?;
        let v6 = convert_last::<T6>(&mut columns, Ghost(row.columns@), 5)?;
        let v7 = convert_last::<T7>(&mut columns, Ghost(row.columns@), 6)?;
        let v8 = convert_last::<T8>(&mut columns, Ghost(row.columns@), 7)?;
        let v9 = convert_last::<T9>(&mut columns, Ghost(row.columns@), 8)?;
        let v10 = convert_last::<T10>(&mut columns, Ghost(row.columns@), 9)?;
        let v11 = convert_last::<T11>(&mut columns, Ghost(row.columns@), 10)?;
        let v12 = convert_last::<T12>(&mut columns, Ghost(row.columns@), 11)?;
        Ok((v1, v2, v3, v4, v5, v6, v7, v8, v9, v10, v11, v12))
    }
}

impl<
    T1: FromCQLVal<Option<CQLValue>>,
    T2: FromCQLVal<Option<CQLValue>>,
    T3: FromCQLVal<Option<CQLValue>>,
    T4: FromCQLVal<Option<CQLValue>>,
    T5: FromCQLVal<Option<CQLValue>>,
    T6: FromCQLVal<Option<CQLValue>>,
    T7: FromCQLVal<Option<CQLValue>>,
    T8: FromCQLVal<Option<CQLValue>>,
    T9: FromCQLVal<Option<CQLValue>>,
    T10: FromCQLVal<Option<CQLValue>>,
    T11: FromCQLVal<Option<CQLValue>>,
    T12: FromCQLVal<Option<CQLValue>>,
    T13: FromCQLVal<Option<CQLValue>>,
> FromRow for (T1, T2, T3, T4, T5, T6, T7, T8, T9, T10, T11, T12, T13) {
    open spec fn row_fault(row: Row) -> Option<FromRowError> {
        let columns = row.columns@;
        if size_fault(columns, 13) is Some {
            size_fault(columns, 13)
        } else if column_fault::<T1>(columns, 0) is Some {
            column_fault::<T1>(columns, 0)
        } else if column_fault::<T2>(columns, 1) is Some {
            column_fault::<T2>(columns, 1)
        } else if column_fault::<T3>(columns, 2) is Some {
            column_fault::<T3>(columns, 2)
        } else if column_fault::<T4>(columns, 3) is Some {
            column_fault::<T4>(columns, 3)
        } else if column_fault::<T5>(columns, 4) is Some {
            column_fault::<T5>(columns, 4)
        } else if column_fault::<T6>(columns, 5) is Some {
            column_fault::<T6>(columns, 5)
        } else if column_fault::<T7>(columns, 6) is Some {
            column_fault::<T7>(columns, 6)
        } else if column_fault::<T8>(columns, 7) is Some {
            column_fault::<T8>(columns, 7)
        } else if column_fault::<T9>(columns, 8) is Some {
            column_fault::<T9>(columns, 8)
        } else if column_fault::<T10>(columns, 9) is Some {
            column_fault::<T10>(columns, 9)
        } else if column_fault::<T11>(columns, 10) is Some {
            column_fault::<T11>(columns, 10)
        } else if column_fault::<T12>(columns, 11) is Some {
            column_fault::<T12>(columns, 11)
        } else {
            column_fault::<T13>(columns, 12)
        }
    }

    open spec fn row_converts(row: Row, r: Self) -> bool {
        &&& T1::converts(row.columns@[0], r.0)
        &&& T2::converts(row.columns@[1], r.1)
        &&& T3::converts(row.columns@[2], r.2)
        &&& T4::converts(row.columns@[3], r.3)
        &&& T5::converts(row.columns@[4], r.4)
        &&& T6::converts(row.columns@[5], r.5)
        &&& T7::converts(row.columns@[6], r.6)
        &&& T8::converts(row.columns@[7], r.7)
        &&& T9::converts(row.columns@[8], r.8)
        &&& T10::converts(row.columns@[9], r.9)
        &&& T11::converts(row.columns@[10], r.10)
        &&& T12::converts(row.columns@[11], r.11)
        &&& T13::converts(row.columns@[12], r.12)
    }

    fn from_row(row: Row) -> (r: Result<Self, FromRowError>) {
        let mut columns = take_columns(row, 13)?;
        let v1 = convert_last::<T1>(&mut columns, Ghost(row.columns@), 0)?;
        let v2 = convert_last::<T2>(&mut columns, Ghost(row.columns@), 1)?;
        let v3 = convert_last::<T3>(&mut columns, Ghost(row.columns@), 2)?;
        let v4 = convert_last::<T4>(&mut columns, Ghost(row.columns@), 3)?;
        let v5 = convert_last::<T5>(&mut columns, Ghost(row.columns@), 4)?;
        let v6 = convert_last::<T6>(&mut columns, Ghost(row.columns@), 5)?;
        let v7 = convert_last::<T7>(&mut columns, Ghost(row.columns@), 6)?;
        let v8 = convert_last::<T8>(&mut columns, Ghost(row.columns@), 7)?;
        let v9 = convert_last::<T9>(&mut columns, Ghost(row.columns@), 8)?;
        let v10 = convert_last::<T10>(&mut columns, Ghost(row.columns@), 9)?;
        let v11 = convert_last::<T11>(&mut columns, Ghost(row.columns@), 10)?;
        let v12 = convert_last::<T12>(&mut columns, Ghost(row.columns@), 11)?;
        let v13 = convert_last::<T13>(&mut columns, Ghost(row.columns@), 12)?;
        Ok((v1, v2, v3, v4, v5, v6, v7, v8, v9, v10, v11, v12, v13))
    }
}

impl<
    T1: FromCQLVal<Option<CQLValue>>,
    T2: FromCQLVal<Option<CQLValue>>,
    T3: FromCQLVal<Option<CQLValue>>,
    T4: FromCQLVal<Option<CQLValue>>,
    T5: FromCQLVal<Option<CQLValue>>,
    T6: FromCQLVal<Option<CQLValue>>,
    T7: FromCQLVal<Option<CQLValue>>,
    T8: FromCQLVal<Option<CQLValue>>,
    T9: FromCQLVal<Option<CQLValue>>,
    T10: FromCQLVal<Option<CQLValue>>,
    T11: FromCQLVal<Option<CQLValue>>,
    T12: FromCQLVal<Option<CQLValue>>,
    T13: FromCQLVal<Option<CQLValue>>,
    T14: FromCQLVal<Option<CQLValue>>,
> FromRow for (T1, T2, T3, T4, T5, T6, T7, T8, T9, T10, T11, T12, T13, T14) {
    open spec fn row_fault(row: Row) -> Option<FromRowError> {
        let columns = row.columns@;
        if size_fault(columns, 14) is Some {
            size_fault(columns, 14)
        } else if column_fault::<T1>(columns, 0) is Some {
            column_fault::<T1>(columns, 0)
        } else if column_fault::<T2>(columns, 1) is Some {
            column_fault::<T2>(columns, 1)
        } else if column_fault::<T3>(columns, 2) is Some {
            column_fault::<T3>(columns, 2)
        } else if column_fault::<T4>(columns, 3) is Some {
            column_fault::<T4>(columns, 3)
        } else if column_fault::<T5>(columns, 4) is Some {
            column_fault::<T5>(columns, 4)
        } else if column_fault::<T6>(columns, 5) is Some {
            column_fault::<T6>(columns, 5)
        } else if column_fault::<T7>(columns, 6) is Some {
            column_fault::<T7>(columns, 6)
        } else if column_fault::<T8>(columns, 7) is Some {
            column_fault::<T8>(columns, 7)
        } else if column_fault::<T9>(columns, 8) is Some {
            column_fault::<T9>(columns, 8)
        } else if column_fault::<T10>(columns, 9) is Some {
            column_fault::<T10>(columns, 9)
        } else if column_fault::<T11>(columns, 10) is Some {
            column_fault::<T11>(columns, 10)
        } else if column_fault::<T12>(columns, 11) is Some {
            column_fault::<T12>(columns, 11)
        } else if column_fault::<T13>(columns, 12) is Some {
            column_fault::<T13>(columns, 12)
        } else {
            column_fault::<T14>(columns, 13)
        }
    }

    open spec fn row_converts(row: Row, r: Self) -> bool {
        &&& T1::converts(row.columns@[0], r.0)
        &&& T2::converts(row.columns@[1], r.1)
        &&& T3::converts(row.columns@[2], r.2)
        &&& T4::converts(row.columns@[3], r.3)
        &&& T5::converts(row.columns@[4], r.4)
        &&& T6::converts(row.columns@[5], r.5)
        &&& T7::converts(row.columns@[6], r.6)
        &&& T8::converts(row.columns@[7], r.7)
        &&& T9::converts(row.columns@[8], r.8)
        &&& T10::converts(row.columns@[9], r.9)
        &&& T11::converts(row.columns@[10], r.10)
        &&& T12::converts(row.columns@[11], r.11)
        &&& T13::converts(row.columns@[12], r.12)
        &&& T14::converts(row.columns@[13], r.13)
    }

    fn from_row(row: Row) -> (r: Result<Self, FromRowError>) {
        let mut columns = take_columns(row, 14)?;
        let v1 = convert_last::<T1>(&mut columns, Ghost(row.columns@), 0)?;
        let v2 = convert_last::<T2>(&mut columns, Ghost(row.columns@), 1)?;
        let v3 = convert_last::<T3>(&mut columns, Ghost(row.columns@), 2)?;
        let v4 = convert_last::<T4>(&mut columns, Ghost(row.columns@), 3)?;
        let v5 = convert_last::<T5>(&mut columns, Ghost(row.columns@), 4)?;
        let v6 = convert_last::<T6>(&mut columns, Ghost(row.columns@), 5)?;
        let v7 = convert_last::<T7>(&mut columns, Ghost(row.columns@), 6)?;
        let v8 = convert_last::<T8>(&mut columns, Ghost(row.columns@), 7)?;
        let v9 = convert_last::<T9>(&mut columns, Ghost(row.columns@), 8)?;
        let v10 = convert_last::<T10>(&mut columns, Ghost(row.columns@), 9)?;
        let v11 = convert_last::<T11>(&mut columns, Ghost(row.columns@), 10)?;
        let v12 = convert_last::<T12>(&mut columns, Ghost(row.columns@), 11)?;
        let v13 = convert_last::<T13>(&mut columns, Ghost(row.columns@), 12)?;
        let v14 = convert_last::<T14>(&mut columns, Ghost(row.columns@), 13)?;
        Ok((v1, v2, v3, v4, v5, v6, v7, v8, v9, v10, v11, v12, v13, v14))
    }
}

impl<
    T1: FromCQLVal<Option<CQLValue>>,
    T2: FromCQLVal<Option<CQLValue>>,
    T3: FromCQLVal<Option<CQLValue>>,
    T4: FromCQLVal<Option<CQLValue>>,
    T5: FromCQLVal<Option<CQLValue>>,
    T6: FromCQLVal<Option<CQLValue>>,
    T7: FromCQLVal<Option<CQLValue>>,
    T8: FromCQLVal<Option<CQLValue>>,
    T9: FromCQLVal<Option<CQLValue>>,
    T10: FromCQLVal<Option<CQLValue>>,
    T11: FromCQLVal<Option<CQLValue>>,
    T12: FromCQLVal<Option<CQLValue>>,
    T13: FromCQLVal<Option<CQLValue>>,
    T14: FromCQLVal<Option<CQLValue>>,
    T15: FromCQLVal<Option<CQLValue>>,
> FromRow for (T1, T2, T3, T4, T5, T6, T7, T8, T9, T10, T11, T12, T13, T14, T15) {
    open spec fn row_fault(row: Row) -> Option<FromRowError> {
        let columns = row.columns@;
        if size_fault(columns, 15) is Some {
            size_fault(columns, 15)
        } else if column_fault::<T1>(columns, 0) is Some {
            column_fault::<T1>(columns, 0)
        } else if column_fault::<T2>(columns, 1) is Some {
            column_fault::<T2>(columns, 1)
        } else if column_fault::<T3>(columns, 2) is Some {
            column_fault::<T3>(columns, 2)
        } else if column_fault::<T4>(columns, 3) is Some {
            column_fault::<T4>(columns, 3)
        } else if column_fault::<T5>(columns, 4) is Some {
            column_fault::<T5>(columns, 4)
        } else if column_fault::<T6>(columns, 5) is Some {
            column_fault::<T6>(columns, 5)
        } else if column_fault::<T7>(columns, 6) is Some {
            column_fault::<T7>(columns, 6)
        } else if column_fault::<T8>(columns, 7) is Some {
            column_fault::<T8>(columns, 7)
        } else if column_fault::<T9>(columns, 8) is Some {
            column_fault::<T9>(columns, 8)
        } else if column_fault::<T10>(columns, 9) is Some {
            column_fault::<T10>(columns, 9)
        } else if column_fault::<T11>(columns, 10) is Some {
            column_fault::<T11>(columns, 10)
        } else if column_fault::<T12>(columns, 11) is Some {
            column_fault::<T12>(columns, 11)
        } else if column_fault::<T13>(columns, 12) is Some {
            column_fault::<T13>(columns, 12)
        } else if column_fault::<T14>(columns, 13) is Some {
            column_fault::<T14>(columns, 13)
        } else {
            column_fault::<T15>(columns, 14)
        }
    }

    open spec fn row_converts(row: Row, r: Self) -> bool {
        &&& T1::converts(row.columns@[0], r.0)
        &&& T2::converts(row.columns@[1], r.1)
        &&& T3::converts(row.columns@[2], r.2)
        &&& T4::converts(row.columns@[3], r.3)
        &&& T5::converts(row.columns@[4], r.4)
        &&& T6::converts(row.columns@[5], r.5)
        &&& T7::converts(row.columns@[6], r.6)
        &&& T8::converts(row.columns@[7], r.7)
        &&& T9::converts(row.columns@[8], r.8)
        &&& T10::converts(row.columns@[9], r.9)
        &&& T11::converts(row.columns@[10], r.10)
        &&& T12::converts(row.columns@[11], r.11)
        &&& T13::converts(row.columns@[12], r.12)
        &&& T14::converts(row.columns@[13], r.13)
        &&& T15::converts(row.columns@[14], r.14)
    }

    fn from_row(row: Row) -> (r: Result<Self, FromRowError>) {
        let mut columns = take_columns(row, 15)?;
        let v1 = convert_last::<T1>(&mut columns, Ghost(row.columns@), 0)?;
        let v2 = convert_last::<T2>(&mut columns, Ghost(row.columns@), 1)?;
        let v3 = convert_last::<T3>(&mut columns, Ghost(row.columns@), 2)?;
        let v4 = convert_last::<T4>(&mut columns, Ghost(row.columns@), 3)?;
        let v5 = convert_last::<T5>(&mut columns, Ghost(row.columns@), 4)?;
        let v6 = convert_last::<T6>(&mut columns, Ghost(row.columns@), 5)?;
        let v7 = convert_last::<T7>(&mut columns, Ghost(row.columns@), 6)?;
        let v8 = convert_last::<T8>(&mut columns, Ghost(row.columns@), 7)?;
        let v9 = convert_last::<T9>(&mut columns, Ghost(row.columns@), 8)?;
        let v10 = convert_last::<T10>(&mut columns, Ghost(row.columns@), 9)?;
        let v11 = convert_last::<T11>(&mut columns, Ghost(row.columns@), 10)?;
        let v12 = convert_last::<T12>(&mut columns, Ghost(row.columns@), 11)?;
        let v13 = convert_last::<T13>(&mut columns, Ghost(row.columns@), 12)?;
        let v14 = convert_last::<T14>(&mut columns, Ghost(row.columns@), 13)?;
        let v15 = convert_last::<T15>(&mut columns, Ghost(row.columns@), 14)?;
        Ok((v1, v2, v3, v4, v5, v6, v7, v8, v9, v10, v11, v12, v13, v14, v15))
    }
}

impl<
    T1: FromCQLVal<Option<CQLValue>>,
    T2: FromCQLVal<Option<CQLValue>>,
    T3: FromCQLVal<Option<CQLValue>>,
    T4: FromCQLVal<Option<CQLValue>>,
    T5: FromCQLVal<Option<CQLValue>>,
    T6: FromCQLVal<Option<CQLValue>>,
    T7: FromCQLVal<Option<CQLValue>>,
    T8: FromCQLVal<Option<CQLValue>>,
    T9: FromCQLVal<Option<CQLValue>>,
    T10: FromCQLVal<Option<CQLValue>>,
    T11: FromCQLVal<Option<CQLValue>>,
    T12: FromCQLVal<Option<CQLValue>>,
    T13: FromCQLVal<Option<CQLValue>>,
    T14: FromCQLVal<Option<CQLValue>>,
    T15: FromCQLVal<Option<CQLValue>>,
    T16: FromCQLVal<Option<CQLValue>>,
> FromRow for (T1, T2, T3, T4, T5, T6, T7, T8, T9, T10, T11, T12, T13, T14, T15, T16) {
    open spec fn row_fault(row: Row) -> Option<FromRowError> {
        let columns = row.columns@;
        if size_fault(columns, 16) is Some {
            size_fault(columns, 16)
        } else if column_fault::<T1>(columns, 0) is Some {
            column_fault::<T1>(columns, 0)
        } else if column_fault::<T2>(columns, 1) is Some {
            column_fault::<T2>(columns, 1)
        } else if column_fault::<T3>(columns, 2) is Some {
            column_fault::<T3>(columns, 2)
        } else if column_fault::<T4>(columns, 3) is Some {
            column_fault::<T4>(columns, 3)
        } else if column_fault::<T5>(columns, 4) is Some {
            column_fault::<T5>(columns, 4)
        } else if column_fault::<T6>(columns, 5) is Some {
            column_fault::<T6>(columns, 5)
        } else if column_fault::<T7>(columns, 6) is Some {
            column_fault::<T7>(columns, 6)
        } else if column_fault::<T8>(columns, 7) is Some {
            column_fault::<T8>(columns, 7)
        } else if column_fault::<T9>(columns, 8) is Some {
            column_fault::<T9>(columns, 8)
        } else if column_fault::<T10>(columns, 9) is Some {
            column_fault::<T10>(columns, 9)
        } else if column_fault::<T11>(columns, 10) is Some {
            column_fault::<T11>(columns, 10)
        } else if column_fault::<T12>(columns, 11) is Some {
            column_fault::<T12>(columns, 11)
        } else if column_fault::<T13>(columns, 12) is Some {
            column_fault::<T13>(columns, 12)
        } else if column_fault::<T14>(columns, 13) is Some {
            column_fault::<T14>(columns, 13)
        } else if column_fault::<T15>(columns, 14) is Some {
            column_fault::<T15>(columns, 14)
        } else {
            column_fault::<T16>(columns, 15)
        }
    }

    open spec fn row_converts(row: Row, r: Self) -> bool {
        &&& T1::converts(row.columns@[0], r.0)
        &&& T2::converts(row.columns@[1], r.1)
        &&& T3::converts(row.columns@[2], r.2)
        &&& T4::converts(row.columns@[3], r.3)
        &&& T5::converts(row.columns@[4], r.4)
        &&& T6::converts(row.columns@[5], r.5)
        &&& T7::converts(row.columns@[6], r.6)
        &&& T8::converts(row.columns@[7], r.7)
        &&& T9::converts(row.columns@[8], r.8)
        &&& T10::converts(row.columns@[9], r.9)
        &&& T11::converts(row.columns@[10], r.10)
        &&& T12::converts(row.columns@[11], r.11)
        &&& T13::converts(row.columns@[12], r.12)
        &&& T14::converts(row.columns@[13], r.13)
        &&& T15::converts(row.columns@[14], r.14)
        &&& T16::converts(row.columns@[15], r.15)
    }

    fn from_row(row: Row) -> (r: Result<Self, FromRowError>) {
        let mut columns = take_columns(row, 16)?;
        let v1 = convert_last::<T1>(&mut columns, Ghost(row.columns@), 0)?;
        let v2 = convert_last::<T2>(&mut columns, Ghost(row.columns@), 1)?;
        let v3 = convert_last::<T3>(&mut columns, Ghost(row.columns@), 2)?;
        let v4 = convert_last::<T4>(&mut columns, Ghost(row.columns@), 3)?;
        let v5 = convert_last::<T5>(&mut columns, Ghost(row.columns@), 4)?;
        let v6 = convert_last::<T6>(&mut columns, Ghost(row.columns@), 5)?;
        let v7 = convert_last::<T7>(&mut columns, Ghost(row.columns@), 6)?;
        let v8 = convert_last::<T8>(&mut columns, Ghost(row.columns@), 7)?;
        let v9 = convert_last::<T9>(&mut columns, Ghost(row.columns@), 8)?;
        let v10 = convert_last::<T10>(&mut columns, Ghost(row.columns@), 9)?;
        let v11 = convert_last::<T11>(&mut columns, Ghost(row.columns@), 10)?;
        let v12 = convert_last::<T12>(&mut columns, Ghost(row.columns@), 11)?;
        let v13 = convert_last::<T13>(&mut columns, Ghost(row.columns@), 12)?;
        let v14 = convert_last::<T14>(&mut columns, Ghost(row.columns@), 13)?;
        let v15 = convert_last::<T15>(&mut columns, Ghost(row.columns@), 14)?;
        let v16 = convert_last::<T16>(&mut columns, Ghost(row.columns@), 15)?;
        Ok((v1, v2, v3, v4, v5, v6, v7, v8, v9, v10, v11, v12, v13, v14, v15, v16))
    }
}
} // verus!
