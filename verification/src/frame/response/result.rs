//! The body of a `RESULT` message: column metadata, rows of typed values and
//! what a `PREPARE` returns.

use bytes::Bytes;
use crate::frame::byte_buffers::{bytes_contents, bytes_from_slice};
use crate::frame::frame_errors::ParseError;
use crate::frame::types::{
    be_read_i32, be_read_i64, i32_from_be, i64_from_be, lemma_prepend_empty,
    lemma_prepend_none_left, lemma_prepend_push, parse_bytes, parse_bytes_opt, parse_int,
    parse_short, parse_short_bytes, parse_string, prepend, read_bytes, read_bytes_opt, read_int,
    read_short, read_short_bytes, read_string, utf8_to_str,
};
use std::result::Result as StdResult;
use vstd::prelude::*;
use vstd::utf8::{decode_utf8, encode_utf8, is_ascii_chars, valid_utf8};

verus! {

/// The answer to a `USE`: nothing of it is decoded.
#[derive(Debug)]
pub struct SetKeyspace {}

/// The answer to a statement that changed the schema: nothing of it is
/// decoded.
#[derive(Debug)]
pub struct SchemaChange {}

/// The keyspace and the table that a column belongs to.
#[derive(Debug)]
pub struct TableSpec {
    pub ks_name: String,
    pub table_name: String,
}

/// What a [`TableSpec`] says.
pub struct TableSpecView {
    pub ks_name: Seq<char>,
    pub table_name: Seq<char>,
}

impl View for TableSpec {
    type V = TableSpecView;

    open spec fn view(&self) -> TableSpecView {
        TableSpecView { ks_name: self.ks_name@, table_name: self.table_name@ }
    }
}

impl DeepView for TableSpec {
    type V = TableSpecView;

    open spec fn deep_view(&self) -> TableSpecView {
        self@
    }
}

impl Clone for TableSpec {
    fn clone(&self) -> (r: Self)
        ensures
            r@ == self@,
    {
        TableSpec { ks_name: self.ks_name.clone(), table_name: self.table_name.clone() }
    }
}

/// The type of a column, as the result metadata names it.
#[derive(Debug)]
pub enum ColumnType {
    Ascii,
    Int,
    BigInt,
    Text,
    Inet,
    CqlSet(Box<ColumnType>),
}

impl Clone for ColumnType {
    fn clone(&self) -> (r: Self)
        ensures
            r == *self,
        decreases *self,
    {
        match self {
            ColumnType::Ascii => ColumnType::Ascii,
            ColumnType::Int => ColumnType::Int,
            ColumnType::BigInt => ColumnType::BigInt,
            ColumnType::Text => ColumnType::Text,
            ColumnType::Inet => ColumnType::Inet,
            ColumnType::CqlSet(elem) => ColumnType::CqlSet(Box::new((&**elem).clone())),
        }
    }
}

/// An IP address without a port: the four bytes of version 4 or the sixteen of
/// version 6, in network order.
#[derive(Debug, Clone, Copy, PartialEq, Eq)]
pub enum InetAddress {
    V4([u8; 4]),
    V6([u8; 16]),
}

impl InetAddress {
    /// The bytes of the address, in network order.
    pub open spec fn octets(&self) -> Seq<u8> {
        match self {
            InetAddress::V4(a) => a@,
            InetAddress::V6(a) => a@,
        }
    }
}

/// A value of a column.
#[derive(Debug)]
pub enum CQLValue {
    Ascii(String),
    Int(i32),
    BigInt(i64),
    Text(String),
    Inet(InetAddress),
    CqlSet(Vec<CQLValue>),
}

impl CQLValue {
    /// The text of an `ascii` value.
    pub fn as_ascii(&self) -> (r: Option<&String>)
        ensures
            r == (match self {
                CQLValue::Ascii(s) => Some(s),
                _ => None,
            }),
    {
        match self {
            CQLValue::Ascii(s) => Some(s),
            _ => None,
        }
    }

    /// The number of an `int` value.
    pub fn as_int(&self) -> (r: Option<i32>)
        ensures
            r == (match self {
                CQLValue::Int(i) => Some(*i),
                _ => None,
            }),
    {
        match self {
            CQLValue::Int(i) => Some(*i),
            _ => None,
        }
    }

    /// The number of a `bigint` value.
    pub fn as_bigint(&self) -> (r: Option<i64>)
        ensures
            r == (match self {
                CQLValue::BigInt(i) => Some(*i),
                _ => None,
            }),
    {
        match self {
            CQLValue::BigInt(i) => Some(*i),
            _ => None,
        }
    }

    /// The text of a `text` value.
    pub fn as_text(&self) -> (r: Option<&String>)
        ensures
            r == (match self {
                CQLValue::Text(s) => Some(s),
                _ => None,
            }),
    {
        match self {
            CQLValue::Text(s) => Some(s),
            _ => None,
        }
    }

    /// The text of an `ascii` or a `text` value.
    pub fn into_string(self) -> (r: Option<String>)
        ensures
            r == (match self {
                CQLValue::Ascii(s) => Some(s),
                CQLValue::Text(s) => Some(s),
                _ => None,
            }),
    {
        match self {
            CQLValue::Ascii(s) => Some(s),
            CQLValue::Text(s) => Some(s),
            _ => None,
        }
    }

    /// The address of an `inet` value.
    pub fn as_inet(&self) -> (r: Option<InetAddress>)
        ensures
            r == (match self {
                CQLValue::Inet(a) => Some(*a),
                _ => None,
            }),
    {
        match self {
            CQLValue::Inet(a) => Some(*a),
            _ => None,
        }
    }

    /// The elements of a set.
    pub fn as_set(&self) -> (r: Option<&Vec<CQLValue>>)
        ensures
            r == (match self {
                CQLValue::CqlSet(items) => Some(items),
                _ => None,
            }),
    {
        match self {
            CQLValue::CqlSet(items) => Some(items),
            _ => None,
        }
    }

    /// The elements of a set.
    pub fn into_set(self) -> (r: Option<Vec<CQLValue>>)
        ensures
            r == (match self {
                CQLValue::CqlSet(items) => Some(items),
                _ => None,
            }),
    {
        match self {
            CQLValue::CqlSet(items) => Some(items),
            _ => None,
        }
    }
}

/// What a [`CQLValue`] says: the same tree, with texts as sequences of
/// characters and an address as its bytes.
pub enum CqlValueView {
    Ascii(Seq<char>),
    Int(i32),
    BigInt(i64),
    Text(Seq<char>),
    Inet(Seq<u8>),
    CqlSet(Seq<CqlValueView>),
}

/// What a value says, as a tree of plain data.
pub open spec fn value_view(v: CQLValue) -> CqlValueView
    decreases v,
{
    match v {
        CQLValue::Ascii(s) => CqlValueView::Ascii(s@),
        CQLValue::Int(i) => CqlValueView::Int(i),
        CQLValue::BigInt(i) => CqlValueView::BigInt(i),
        CQLValue::Text(s) => CqlValueView::Text(s@),
        CQLValue::Inet(a) => CqlValueView::Inet(a.octets()),
        CQLValue::CqlSet(items) => CqlValueView::CqlSet(
            Seq::new(
                items@.len(),
                |i: int|
                    if 0 <= i < items@.len() {
                        value_view(items@[i])
                    } else {
                        CqlValueView::Int(0)
                    },
            ),
        ),
    }
}

impl View for CQLValue {
    type V = CqlValueView;

    open spec fn view(&self) -> CqlValueView {
        value_view(*self)
    }
}

impl DeepView for CQLValue {
    type V = CqlValueView;

    open spec fn deep_view(&self) -> CqlValueView {
        self@
    }
}

/// The view of a sequence of values is the sequence of their views.
pub proof fn lemma_values_view(items: Vec<CQLValue>)
    ensures
        CQLValue::CqlSet(items)@ == CqlValueView::CqlSet(items.deep_view()),
{
    let whole = CQLValue::CqlSet(items)@->CqlSet_0;
    assert(whole.len() == items@.len());
    assert(whole =~= items.deep_view());
}

/// What a reader of a table specification makes of the bytes under the
/// cursor: the keyspace name and the table name, each a `[string]`.
pub open spec fn parse_table_spec(s: Seq<u8>) -> StdResult<(TableSpecView, Seq<u8>), ParseError> {
    match parse_string(s) {
        Err(e) => Err(e),
        Ok((ks_name, rest)) => match parse_string(rest) {
            Err(e) => Err(e),
            Ok((table_name, rest)) => Ok((TableSpecView { ks_name, table_name }, rest)),
        },
    }
}

/// What a reader of a column type makes of the bytes under the cursor: a
/// `[short]` id and, for a set, the type of its elements.
pub open spec fn parse_type(s: Seq<u8>) -> StdResult<(ColumnType, Seq<u8>), ParseError>
    decreases s.len(),
{
    match parse_short(s) {
        Err(e) => Err(e),
        Ok((id, rest)) => if id == 0x0001 {
            Ok((ColumnType::Ascii, rest))
        } else if id == 0x0002 {
            Ok((ColumnType::BigInt, rest))
        } else if id == 0x0009 {
            Ok((ColumnType::Int, rest))
        } else if id == 0x000D {
            Ok((ColumnType::Text, rest))
        } else if id == 0x0010 {
            Ok((ColumnType::Inet, rest))
        } else if id == 0x0022 {
            match parse_type(rest) {
                Err(e) => Err(e),
                Ok((elem, rest)) => Ok((ColumnType::CqlSet(Box::new(elem)), rest)),
            }
        } else {
            Err(ParseError::TypeNotImplemented(id))
        },
    }
}

/// Reads the keyspace and the table of a column.
pub fn deser_table_spec(buf: &mut &[u8]) -> (r: StdResult<TableSpec, ParseError>)
    ensures
        match r {
            Ok(v) => parse_table_spec(old(buf)@) == Ok::<_, ParseError>((v@, final(buf)@)),
            Err(e) => parse_table_spec(old(buf)@) == Err::<(TableSpecView, Seq<u8>), _>(e)
                && final(buf)@ == old(buf)@,
        },
{
    let mut cur: &[u8] = *buf;
    let ks_name = read_string(&mut cur)?.to_owned();
    let table_name = read_string(&mut cur)?.to_owned();
    *buf = cur;
    Ok(TableSpec { ks_name, table_name })
}

/// Reads the type of a column.
pub fn deser_type(buf: &mut &[u8]) -> (r: StdResult<ColumnType, ParseError>)
    ensures
        match r {
            Ok(v) => parse_type(old(buf)@) == Ok::<_, ParseError>((v, final(buf)@)),
            Err(e) => parse_type(old(buf)@) == Err::<(ColumnType, Seq<u8>), _>(e) && final(buf)@
                == old(buf)@,
        },
    decreases old(buf)@.len(),
{
    let mut cur: &[u8] = *buf;
    let id = read_short(&mut cur)?;
    let typ = match id {
        0x0001 => ColumnType::Ascii,
        0x0002 => ColumnType::BigInt,
        0x0009 => ColumnType::Int,
        0x000D => ColumnType::Text,
        0x0010 => ColumnType::Inet,
        0x0022 => ColumnType::CqlSet(Box::new(deser_type(&mut cur)?)),
        id => {
            return Err(ParseError::TypeNotImplemented(id));
        },
    };
    *buf = cur;
    Ok(typ)
}

/// Every byte is below 128.
pub open spec fn is_ascii_bytes(s: Seq<u8>) -> bool {
    forall|i: int| 0 <= i < s.len() ==> #[trigger] s[i] < 128
}

/// Bytes below 128 are UTF-8, and the text that they encode holds the same
/// numbers as characters.
pub proof fn lemma_ascii_is_utf8(s: Seq<u8>)
    requires
        is_ascii_bytes(s),
    ensures
        valid_utf8(s),
        is_ascii_chars(decode_utf8(s)),
        encode_utf8(decode_utf8(s)) == s,
{
    broadcast use vstd::utf8::encode_utf8_valid_utf8, vstd::utf8::encode_utf8_decode_utf8;

    let chars = Seq::new(s.len(), |i: int| s[i] as char);
    assert(is_ascii_chars(chars)) by {
        assert forall|i: int| 0 <= i < chars.len() implies '\0' <= #[trigger] chars[i]
            <= '\u{7f}' by {
            assert(s[i] < 128);
        }
    }
    vstd::utf8::is_ascii_chars_encode_utf8(chars);
    assert(encode_utf8(chars) =~= s) by {
        assert forall|i: int| 0 <= i < s.len() implies encode_utf8(chars)[i] == s[i] by {
            assert(chars[i] as u8 == s[i]);
        }
    }
}

/// The text of an `ascii` value encodes to bytes below 128.
pub proof fn lemma_ascii_chars_encode(chars: Seq<char>)
    requires
        is_ascii_chars(chars),
    ensures
        is_ascii_bytes(encode_utf8(chars)),
{
    vstd::utf8::is_ascii_chars_encode_utf8(chars);
    let s = encode_utf8(chars);
    assert forall|i: int| 0 <= i < s.len() implies #[trigger] s[i] < 128 by {
        assert('\0' <= chars[i] <= '\u{7f}');
        assert(chars[i] as u8 == s[i]);
    }
}

/// What decoding a value of type `typ` makes of the bytes under the cursor:
/// the value and what is left. An `ascii`, a `text`, an `int`, a `bigint` and
/// an `inet` take all the bytes there are; a set takes its count and its
/// elements and leaves what follows them.
pub open spec fn parse_cql_value(typ: ColumnType, s: Seq<u8>) -> StdResult<
    (CqlValueView, Seq<u8>),
    ParseError,
>
    decreases typ, 0nat,
{
    match typ {
        ColumnType::Ascii => if is_ascii_bytes(s) {
            Ok((CqlValueView::Ascii(decode_utf8(s)), Seq::empty()))
        } else {
            Err(ParseError::NotAscii)
        },
        ColumnType::Int => if s.len() == 4 {
            Ok((CqlValueView::Int(i32_from_be(s) as i32), Seq::empty()))
        } else {
            Err(ParseError::BadValueLength(s.len() as usize))
        },
        ColumnType::BigInt => if s.len() == 8 {
            Ok((CqlValueView::BigInt(i64_from_be(s) as i64), Seq::empty()))
        } else {
            Err(ParseError::BadValueLength(s.len() as usize))
        },
        ColumnType::Text => if valid_utf8(s) {
            Ok((CqlValueView::Text(decode_utf8(s)), Seq::empty()))
        } else {
            Err(ParseError::InvalidUtf8)
        },
        ColumnType::Inet => if s.len() == 4 || s.len() == 16 {
            Ok((CqlValueView::Inet(s), Seq::empty()))
        } else {
            Err(ParseError::BadValueLength(s.len() as usize))
        },
        ColumnType::CqlSet(elem) => match parse_int(s) {
            Err(e) => Err(e),
            Ok((count, rest)) => if count < 0 {
                Err(ParseError::NegativeLength(count))
            } else {
                match parse_set_items(*elem, count as nat, rest) {
                    Err(e) => Err(e),
                    Ok((items, rest)) => Ok((CqlValueView::CqlSet(items), rest)),
                }
            },
        },
    }
}

/// What decoding `count` elements of a set makes of the bytes under the
/// cursor. Each element is `[bytes]` that must not be null, decoded as a value
/// of type `elem`; what an element leaves of its own bytes is dropped.
pub open spec fn parse_set_items(elem: ColumnType, count: nat, s: Seq<u8>) -> StdResult<
    (Seq<CqlValueView>, Seq<u8>),
    ParseError,
>
    decreases elem, count + 1,
{
    if count == 0 {
        Ok((Seq::empty(), s))
    } else {
        match parse_bytes(s) {
            Err(e) => Err(e),
            Ok((raw, rest)) => match parse_cql_value(elem, raw) {
                Err(e) => Err(e),
                Ok((first, _)) => prepend(
                    seq![first],
                    parse_set_items(elem, (count - 1) as nat, rest),
                ),
            },
        }
    }
}

/// Tells whether every byte is below 128.
pub fn is_ascii(bytes: &[u8]) -> (r: bool)
    ensures
        r == is_ascii_bytes(bytes@),
{
    let mut i: usize = 0;
    while i < bytes.len()
        invariant
            i <= bytes@.len(),
            forall|j: int| 0 <= j < i ==> #[trigger] bytes@[j] < 128,
        decreases bytes@.len() - i,
    {
        if bytes[i] >= 128 {
            return false;
        }
        i += 1;
    }
    true
}

/// Moves the cursor to the end of its bytes.
fn skip_all(buf: &mut &[u8])
    ensures
        final(buf)@ == Seq::<u8>::empty(),
{
    let (_, rest) = buf.split_at(buf.len());
    *buf = rest;
    assert(buf@ =~= Seq::<u8>::empty());
}

/// Decodes the bytes of one value of type `typ`.
pub fn deser_cql_value(typ: &ColumnType, buf: &mut &[u8]) -> (r: StdResult<CQLValue, ParseError>)
    ensures
        match r {
            Ok(v) => parse_cql_value(*typ, old(buf)@) == Ok::<_, ParseError>((v@, final(buf)@)),
            Err(e) => parse_cql_value(*typ, old(buf)@) == Err::<(CqlValueView, Seq<u8>), _>(e)
                && final(buf)@ == old(buf)@,
        },
    decreases *typ,
{
    match typ {
        ColumnType::Ascii => {
            if !is_ascii(*buf) {
                return Err(ParseError::NotAscii);
            }
            proof {
                lemma_ascii_is_utf8(buf@);
            }
            match utf8_to_str(*buf) {
                Some(s) => {
                    let v = CQLValue::Ascii(s.to_owned());
                    skip_all(buf);
                    Ok(v)
                },
                None => Err(ParseError::InvalidUtf8),
            }
        },
        ColumnType::Int => {
            if buf.len() != 4 {
                return Err(ParseError::BadValueLength(buf.len()));
            }
            match be_read_i32(*buf) {
                Some(i) => {
                    assert(buf@.subrange(0, 4) =~= buf@);
                    skip_all(buf);
                    Ok(CQLValue::Int(i))
                },
                None => Err(ParseError::UnexpectedEof),
            }
        },
        ColumnType::BigInt => {
            if buf.len() != 8 {
                return Err(ParseError::BadValueLength(buf.len()));
            }
            match be_read_i64(*buf) {
                Some(i) => {
                    assert(buf@.subrange(0, 8) =~= buf@);
                    skip_all(buf);
                    Ok(CQLValue::BigInt(i))
                },
                None => Err(ParseError::UnexpectedEof),
            }
        },
        ColumnType::Text => {
            match utf8_to_str(*buf) {
                Some(s) => {
                    let v = CQLValue::Text(s.to_owned());
                    skip_all(buf);
                    Ok(v)
                },
                None => Err(ParseError::InvalidUtf8),
            }
        },
        ColumnType::Inet => {
            let b: &[u8] = *buf;
            if b.len() == 4 {
                let a = InetAddress::V4([b[0], b[1], b[2], b[3]]);
                assert(a.octets() =~= b@);
                skip_all(buf);
                Ok(CQLValue::Inet(a))
            } else if b.len() == 16 {
                let a = InetAddress::V6(
                    [
                        b[0],
                        b[1],
                        b[2],
                        b[3],
                        b[4],
                        b[5],
                        b[6],
                        b[7],
                        b[8],
                        b[9],
                        b[10],
                        b[11],
                        b[12],
                        b[13],
                        b[14],
                        b[15],
                    ],
                );
                assert(a.octets() =~= b@);
                skip_all(buf);
                Ok(CQLValue::Inet(a))
            } else {
                Err(ParseError::BadValueLength(b.len()))
            }
        },
        ColumnType::CqlSet(elem) => {
            let mut cur: &[u8] = *buf;
            let count = read_int(&mut cur)?;
            if count < 0 {
                return Err(ParseError::NegativeLength(count));
            }
            let ghost after_count = cur@;
            let mut items: Vec<CQLValue> = Vec::new();
            let mut i: i32 = 0;
            proof {
                lemma_prepend_empty(parse_set_items(**elem, count as nat, cur@));
                assert(items.deep_view() =~= Seq::empty());
            }
            while i < count
                invariant
                    0 <= i <= count,
                    *typ == ColumnType::CqlSet(*elem),
                    buf@ == old(buf)@,
                    parse_int(old(buf)@) == Ok::<_, ParseError>((count, after_count)),
                    parse_set_items(**elem, count as nat, after_count) == prepend(
                        items.deep_view(),
                        parse_set_items(**elem, (count - i) as nat, cur@),
                    ),
                decreases count - i,
            {
                let ghost before = cur@;
                let ghost done = items.deep_view();
                let mut raw = read_bytes(&mut cur)?;
                let v = deser_cql_value(elem, &mut raw)?;
                items.push(v);
                i += 1;
                proof {
                    assert(items.deep_view() =~= done.push(v@));
                    lemma_prepend_push(
                        done,
                        v@,
                        parse_set_items(**elem, (count - i) as nat, cur@),
                    );
                }
            }
            proof {
                lemma_prepend_none_left(items.deep_view(), cur@);
                lemma_values_view(items);
            }
            *buf = cur;
            Ok(CQLValue::CqlSet(items))
        },
    }
}

/// The name and the type of one column of a result or of one bind marker.
#[derive(Debug)]
pub struct ColumnSpec {
    pub table_spec: TableSpec,
    pub name: String,
    pub typ: ColumnType,
}

/// What a [`ColumnSpec`] says.
pub struct ColumnSpecView {
    pub table_spec: TableSpecView,
    pub name: Seq<char>,
    pub typ: ColumnType,
}

impl View for ColumnSpec {
    type V = ColumnSpecView;

    open spec fn view(&self) -> ColumnSpecView {
        ColumnSpecView { table_spec: self.table_spec@, name: self.name@, typ: self.typ }
    }
}

impl DeepView for ColumnSpec {
    type V = ColumnSpecView;

    open spec fn deep_view(&self) -> ColumnSpecView {
        self@
    }
}

impl Clone for ColumnSpec {
    fn clone(&self) -> (r: Self)
        ensures
            r@ == self@,
    {
        ColumnSpec {
            table_spec: self.table_spec.clone(),
            name: self.name.clone(),
            typ: self.typ.clone(),
        }
    }
}

/// What comes before the rows of a result: the number of columns, the paging
/// state if more pages follow, and the columns' specifications unless the
/// server left them out.
#[derive(Debug)]
pub struct ResultMetadata {
    pub col_count: usize,
    pub paging_state: Option<Bytes>,
    pub col_specs: Vec<ColumnSpec>,
}

/// What a [`ResultMetadata`] says.
pub struct ResultMetadataView {
    pub col_count: usize,
    pub paging_state: Option<Seq<u8>>,
    pub col_specs: Seq<ColumnSpecView>,
}

/// What an optional `Bytes` holds.
pub open spec fn optional_bytes_contents(b: Option<Bytes>) -> Option<Seq<u8>> {
    match b {
        Some(b) => Some(bytes_contents(&b)),
        None => None,
    }
}

impl View for ResultMetadata {
    type V = ResultMetadataView;

    open spec fn view(&self) -> ResultMetadataView {
        ResultMetadataView {
            col_count: self.col_count,
            paging_state: optional_bytes_contents(self.paging_state),
            col_specs: self.col_specs.deep_view(),
        }
    }
}

impl Default for ResultMetadata {
    fn default() -> (r: Self)
        ensures
            r@ == (ResultMetadataView {
                col_count: 0,
                paging_state: None,
                col_specs: Seq::empty(),
            }),
    {
        let r = ResultMetadata { col_count: 0, paging_state: None, col_specs: Vec::new() };
        assert(r.col_specs.deep_view() =~= Seq::empty());
        r
    }
}

/// What a prepared statement says of its bind markers: how many there are,
/// which of them make up the partition key, in the order in which the key is
/// hashed, and the specification of each.
#[derive(Debug)]
pub struct PreparedMetadata {
    pub col_count: usize,
    pub pk_indexes: Vec<u16>,
    pub col_specs: Vec<ColumnSpec>,
}

/// What a [`PreparedMetadata`] says.
pub struct PreparedMetadataView {
    pub col_count: usize,
    pub pk_indexes: Seq<u16>,
    pub col_specs: Seq<ColumnSpecView>,
}

impl View for PreparedMetadata {
    type V = PreparedMetadataView;

    open spec fn view(&self) -> PreparedMetadataView {
        PreparedMetadataView {
            col_count: self.col_count,
            pk_indexes: self.pk_indexes@,
            col_specs: self.col_specs.deep_view(),
        }
    }
}

/// Copies a list of column specifications.
fn clone_col_specs(specs: &Vec<ColumnSpec>) -> (r: Vec<ColumnSpec>)
    ensures
        r.deep_view() == specs.deep_view(),
{
    let mut r: Vec<ColumnSpec> = Vec::new();
    let mut i: usize = 0;
    while i < specs.len()
        invariant
            i <= specs@.len(),
            r@.len() == i,
            forall|j: int| 0 <= j < i ==> r@[j]@ == specs@[j]@,
        decreases specs@.len() - i,
    {
        r.push(specs[i].clone());
        i += 1;
    }
    assert(r.deep_view() =~= specs.deep_view());
    r
}

impl Clone for PreparedMetadata {
    fn clone(&self) -> (r: Self)
        ensures
            r@ == self@,
    {
        PreparedMetadata {
            col_count: self.col_count,
            pk_indexes: self.pk_indexes.clone(),
            col_specs: clone_col_specs(&self.col_specs),
        }
    }
}

/// One row of a result: a value or null for each column.
#[derive(Debug)]
pub struct Row {
    pub columns: Vec<Option<CQLValue>>,
}

impl View for Row {
    type V = Seq<Option<CqlValueView>>;

    open spec fn view(&self) -> Seq<Option<CqlValueView>> {
        self.columns.deep_view()
    }
}

impl DeepView for Row {
    type V = Seq<Option<CqlValueView>>;

    open spec fn deep_view(&self) -> Seq<Option<CqlValueView>> {
        self@
    }
}

impl Default for Row {
    fn default() -> (r: Self)
        ensures
            r@ == Seq::<Option<CqlValueView>>::empty(),
    {
        let r = Row { columns: Vec::new() };
        assert(r@ =~= Seq::<Option<CqlValueView>>::empty());
        r
    }
}

/// One page of rows, with its metadata.
#[derive(Debug)]
pub struct Rows {
    pub metadata: ResultMetadata,
    pub rows_count: usize,
    pub rows: Vec<Row>,
}

/// What a page of [`Rows`] says.
pub struct RowsView {
    pub metadata: ResultMetadataView,
    pub rows_count: usize,
    pub rows: Seq<Seq<Option<CqlValueView>>>,
}

impl View for Rows {
    type V = RowsView;

    open spec fn view(&self) -> RowsView {
        RowsView {
            metadata: self.metadata@,
            rows_count: self.rows_count,
            rows: self.rows.deep_view(),
        }
    }
}

impl Default for Rows {
    fn default() -> (r: Self)
        ensures
            r@ == (RowsView {
                metadata: ResultMetadataView {
                    col_count: 0,
                    paging_state: None,
                    col_specs: Seq::empty(),
                },
                rows_count: 0,
                rows: Seq::empty(),
            }),
            r.rows@ == Seq::<Row>::empty(),
    {
        let r = Rows { metadata: ResultMetadata::default(), rows_count: 0, rows: Vec::new() };
        assert(r.rows.deep_view() =~= Seq::empty());
        r
    }
}

/// What a `PREPARE` returns: the id of the statement, and the metadata of its
/// bind markers and of its result.
#[derive(Debug)]
pub struct Prepared {
    pub id: Bytes,
    pub prepared_metadata: PreparedMetadata,
    pub result_metadata: ResultMetadata,
}

/// What a [`Prepared`] says.
pub struct PreparedView {
    pub id: Seq<u8>,
    pub prepared_metadata: PreparedMetadataView,
    pub result_metadata: ResultMetadataView,
}

impl View for Prepared {
    type V = PreparedView;

    open spec fn view(&self) -> PreparedView {
        PreparedView {
            id: bytes_contents(&self.id),
            prepared_metadata: self.prepared_metadata@,
            result_metadata: self.result_metadata@,
        }
    }
}

/// The body of a `RESULT` message.
#[derive(Debug)]
pub enum Result {
    Void,
    Rows(Rows),
    SetKeyspace(SetKeyspace),
    Prepared(Prepared),
    SchemaChange(SchemaChange),
}

/// What a [`Result`] says.
pub enum ResultView {
    Void,
    Rows(RowsView),
    SetKeyspace,
    Prepared(PreparedView),
    SchemaChange,
}

impl View for Result {
    type V = ResultView;

    open spec fn view(&self) -> ResultView {
        match self {
            Result::Void => ResultView::Void,
            Result::Rows(rows) => ResultView::Rows(rows@),
            Result::SetKeyspace(_) => ResultView::SetKeyspace,
            Result::Prepared(prepared) => ResultView::Prepared(prepared@),
            Result::SchemaChange(_) => ResultView::SchemaChange,
        }
    }
}

/// What a reader of one column specification makes of the bytes under the
/// cursor: the table specification unless a global one was given, the
/// column's name as a `[string]`, and its type.
pub open spec fn parse_col_spec(global: Option<TableSpecView>, s: Seq<u8>) -> StdResult<
    (ColumnSpecView, Seq<u8>),
    ParseError,
> {
    let table = match global {
        Some(table_spec) => Ok((table_spec, s)),
        None => parse_table_spec(s),
    };
    match table {
        Err(e) => Err(e),
        Ok((table_spec, rest)) => match parse_string(rest) {
            Err(e) => Err(e),
            Ok((name, rest)) => match parse_type(rest) {
                Err(e) => Err(e),
                Ok((typ, rest)) => Ok((ColumnSpecView { table_spec, name, typ }, rest)),
            },
        },
    }
}

/// What a reader of `count` column specifications makes of the bytes under
/// the cursor.
pub open spec fn parse_col_specs(
    global: Option<TableSpecView>, count: nat, s: Seq<u8>) -> StdResult<
    (Seq<ColumnSpecView>, Seq<u8>),
    ParseError,
>
    decreases count,
{
    if count == 0 {
        Ok((Seq::empty(), s))
    } else {
        match parse_col_spec(global, s) {
            Err(e) => Err(e),
            Ok((first, rest)) => prepend(
                seq![first],
                parse_col_specs(global, (count - 1) as nat, rest),
            ),
        }
    }
}

/// What a reader of `count` numbers, each a `[short]`, makes of the bytes
/// under the cursor.
pub open spec fn parse_shorts(count: nat, s: Seq<u8>) -> StdResult<(Seq<u16>, Seq<u8>), ParseError>
    decreases count,
{
    if count == 0 {
        Ok((Seq::empty(), s))
    } else {
        match parse_short(s) {
            Err(e) => Err(e),
            Ok((first, rest)) => prepend(seq![first], parse_shorts((count - 1) as nat, rest)),
        }
    }
}

/// The paging state of a result: `[bytes]` that must not be null when the
/// flags announce more pages, nothing otherwise.
pub open spec fn parse_paging_state(flags: i32, s: Seq<u8>) -> StdResult<
    (Option<Seq<u8>>, Seq<u8>),
    ParseError,
> {
    if flags & 0x0002 != 0 {
        match parse_bytes(s) {
            Err(e) => Err(e),
            Ok((state, rest)) => Ok((Some(state), rest)),
        }
    } else {
        Ok((None, s))
    }
}

/// The table specification that all columns share, when the flags announce
/// one.
pub open spec fn parse_global_table_spec(flags: i32, s: Seq<u8>) -> StdResult<
    (Option<TableSpecView>, Seq<u8>),
    ParseError,
> {
    if flags & 0x0001 != 0 {
        match parse_table_spec(s) {
            Err(e) => Err(e),
            Ok((table_spec, rest)) => Ok((Some(table_spec), rest)),
        }
    } else {
        Ok((None, s))
    }
}

/// What a reader of result metadata makes of the bytes under the cursor:
/// the flags and the column count, each an `[int]`; the paging state; and,
/// unless the flags say that the metadata was left out, the global table
/// specification and one specification for each column.
#[verifier::opaque]
pub open spec fn parse_result_metadata(s: Seq<u8>) -> StdResult<
    (ResultMetadataView, Seq<u8>),
    ParseError,
> {
    match parse_int(s) {
        Err(e) => Err(e),
        Ok((flags, rest)) => match parse_int(rest) {
            Err(e) => Err(e),
            Ok((col_count, rest)) => if col_count < 0 {
                Err(ParseError::NegativeLength(col_count))
            } else {
                match parse_paging_state(flags, rest) {
                    Err(e) => Err(e),
                    Ok((paging_state, rest)) => if flags & 0x0004 != 0 {
                        Ok(
                            (
                                ResultMetadataView {
                                    col_count: col_count as usize,
                                    paging_state,
                                    col_specs: Seq::empty(),
                                },
                                rest,
                            ),
                        )
                    } else {
                        match parse_global_table_spec(flags, rest) {
                            Err(e) => Err(e),
                            Ok((global, rest)) => match parse_col_specs(
                                global,
                                col_count as nat,
                                rest,
                            ) {
                                Err(e) => Err(e),
                                Ok((col_specs, rest)) => Ok(
                                    (
                                        ResultMetadataView {
                                            col_count: col_count as usize,
                                            paging_state,
                                            col_specs,
                                        },
                                        rest,
                                    ),
                                ),
                            },
                        }
                    },
                }
            },
        },
    }
}

/// What a reader of the metadata of a prepared statement makes of the bytes
/// under the cursor: the flags, the number of bind markers and the number of
/// partition key indexes, each an `[int]`; the indexes, each a `[short]`;
/// the global table specification; and one specification for each marker.
#[verifier::opaque]
pub open spec fn parse_prepared_metadata(s: Seq<u8>) -> StdResult<
    (PreparedMetadataView, Seq<u8>),
    ParseError,
> {
    match parse_int(s) {
        Err(e) => Err(e),
        Ok((flags, rest)) => match parse_int(rest) {
            Err(e) => Err(e),
            Ok((col_count, rest)) => if col_count < 0 {
                Err(ParseError::NegativeLength(col_count))
            } else {
                match parse_int(rest) {
                    Err(e) => Err(e),
                    Ok((pk_count, rest)) => if pk_count < 0 {
                        Err(ParseError::NegativeLength(pk_count))
                    } else {
                        match parse_shorts(pk_count as nat, rest) {
                            Err(e) => Err(e),
                            Ok((pk_indexes, rest)) => match parse_global_table_spec(flags, rest) {
                                Err(e) => Err(e),
                                Ok((global, rest)) => match parse_col_specs(
                                    global,
                                    col_count as nat,
                                    rest,
                                ) {
                                    Err(e) => Err(e),
                                    Ok((col_specs, rest)) => Ok(
                                        (
                                            PreparedMetadataView {
                                                col_count: col_count as usize,
                                                pk_indexes,
                                                col_specs,
                                            },
                                            rest,
                                        ),
                                    ),
                                },
                            },
                        }
                    },
                }
            },
        },
    }
}

/// What a reader of one column of a row makes of the bytes under the cursor:
/// `[bytes]`, null for a null column, else decoded as a value of type `typ`.
/// What the value leaves of its own bytes is dropped.
pub open spec fn parse_column(typ: ColumnType, s: Seq<u8>) -> StdResult<
    (Option<CqlValueView>, Seq<u8>),
    ParseError,
> {
    match parse_bytes_opt(s) {
        Err(e) => Err(e),
        Ok((None, rest)) => Ok((None, rest)),
        Ok((Some(raw), rest)) => match parse_cql_value(typ, raw) {
            Err(e) => Err(e),
            Ok((v, _)) => Ok((Some(v), rest)),
        },
    }
}

/// What a reader of the columns of one row, from column `from` on, makes of
/// the bytes under the cursor.
pub open spec fn parse_row_from(specs: Seq<ColumnSpecView>, from: nat, s: Seq<u8>) -> StdResult<
    (Seq<Option<CqlValueView>>, Seq<u8>),
    ParseError,
>
    decreases specs.len() - from,
{
    if from >= specs.len() {
        Ok((Seq::empty(), s))
    } else {
        match parse_column(specs[from as int].typ, s) {
            Err(e) => Err(e),
            Ok((first, rest)) => prepend(seq![first], parse_row_from(specs, from + 1, rest)),
        }
    }
}

/// What a reader of `count` rows makes of the bytes under the cursor.
pub open spec fn parse_row_list(specs: Seq<ColumnSpecView>, count: nat, s: Seq<u8>) -> StdResult<
    (Seq<Seq<Option<CqlValueView>>>, Seq<u8>),
    ParseError,
>
    decreases count,
{
    if count == 0 {
        Ok((Seq::empty(), s))
    } else {
        match parse_row_from(specs, 0, s) {
            Err(e) => Err(e),
            Ok((first, rest)) => prepend(
                seq![first],
                parse_row_list(specs, (count - 1) as nat, rest),
            ),
        }
    }
}

/// What a reader of a page of rows makes of the bytes under the cursor: the
/// metadata, which must specify as many columns as it counts; the number of
/// rows as an `[int]`; and the rows.
#[verifier::opaque]
pub open spec fn parse_rows(s: Seq<u8>) -> StdResult<(RowsView, Seq<u8>), ParseError> {
    match parse_result_metadata(s) {
        Err(e) => Err(e),
        Ok((metadata, rest)) => if metadata.col_count != metadata.col_specs.len() {
            Err(ParseError::MissingColumnSpecs)
        } else {
            match parse_int(rest) {
                Err(e) => Err(e),
                Ok((rows_count, rest)) => if rows_count < 0 {
                    Err(ParseError::NegativeLength(rows_count))
                } else {
                    match parse_row_list(metadata.col_specs, rows_count as nat, rest) {
                        Err(e) => Err(e),
                        Ok((rows, rest)) => Ok(
                            (RowsView { metadata, rows_count: rows_count as usize, rows }, rest),
                        ),
                    }
                },
            }
        },
    }
}

/// What a reader of the answer to a `PREPARE` makes of the bytes under the
/// cursor: the id as `[short bytes]`, the metadata of the bind markers and
/// the metadata of the result.
#[verifier::opaque]
pub open spec fn parse_prepared(s: Seq<u8>) -> StdResult<(PreparedView, Seq<u8>), ParseError> {
    match parse_short_bytes(s) {
        Err(e) => Err(e),
        Ok((id, rest)) => match parse_prepared_metadata(rest) {
            Err(e) => Err(e),
            Ok((prepared_metadata, rest)) => match parse_result_metadata(rest) {
                Err(e) => Err(e),
                Ok((result_metadata, rest)) => Ok(
                    (PreparedView { id, prepared_metadata, result_metadata }, rest),
                ),
            },
        },
    }
}

/// What a reader of the body of a `RESULT` makes of the bytes under the
/// cursor: the kind as an `[int]`, and what that kind carries.
pub open spec fn parse_result(s: Seq<u8>) -> StdResult<(ResultView, Seq<u8>), ParseError> {
    match parse_int(s) {
        Err(e) => Err(e),
        Ok((kind, rest)) => if kind == 0x0001 {
            Ok((ResultView::Void, rest))
        } else if kind == 0x0002 {
            match parse_rows(rest) {
                Err(e) => Err(e),
                Ok((rows, rest)) => Ok((ResultView::Rows(rows), rest)),
            }
        } else if kind == 0x0003 {
            Ok((ResultView::SetKeyspace, rest))
        } else if kind == 0x0004 {
            match parse_prepared(rest) {
                Err(e) => Err(e),
                Ok((prepared, rest)) => Ok((ResultView::Prepared(prepared), rest)),
            }
        } else if kind == 0x0005 {
            Ok((ResultView::SchemaChange, rest))
        } else {
            Err(ParseError::UnknownResultKind(kind))
        },
    }
}

/// Reads `col_count` column specifications. With a global table
/// specification, each column takes a copy of it.
pub fn deser_col_specs(
    buf: &mut &[u8],
    global_table_spec: &Option<TableSpec>,
    col_count: usize,
) -> (r: StdResult<Vec<ColumnSpec>, ParseError>)
    ensures
        match r {
            Ok(v) => parse_col_specs(global_table_spec.deep_view(), col_count as nat, old(buf)@)
                == Ok::<_, ParseError>((v.deep_view(), final(buf)@)),
            Err(e) => parse_col_specs(global_table_spec.deep_view(), col_count as nat, old(buf)@)
                == Err::<(Seq<ColumnSpecView>, Seq<u8>), _>(e) && final(buf)@ == old(buf)@,
        },
{
    let ghost global = global_table_spec.deep_view();
    let mut cur: &[u8] = *buf;
    let mut col_specs: Vec<ColumnSpec> = Vec::new();
    let mut i: usize = 0;
    proof {
        lemma_prepend_empty(parse_col_specs(global, col_count as nat, cur@));
        assert(col_specs.deep_view() =~= Seq::empty());
    }
    while i < col_count
        invariant
            i <= col_count,
            buf@ == old(buf)@,
            global == global_table_spec.deep_view(),
            parse_col_specs(global, col_count as nat, old(buf)@) == prepend(
                col_specs.deep_view(),
                parse_col_specs(global, (col_count - i) as nat, cur@),
            ),
        decreases col_count - i,
    {
        let ghost done = col_specs.deep_view();
        let table_spec = match global_table_spec {
            Some(spec) => spec.clone(),
            None => deser_table_spec(&mut cur)?,
        };
        let name = read_string(&mut cur)?.to_owned();
        let typ = deser_type(&mut cur)?;
        let spec = ColumnSpec { table_spec, name, typ };
        col_specs.push(spec);
        i += 1;
        proof {
            assert(col_specs.deep_view() =~= done.push(spec@));
            lemma_prepend_push(
                done,
                spec@,
                parse_col_specs(global, (col_count - i) as nat, cur@),
            );
        }
    }
    proof {
        lemma_prepend_none_left(col_specs.deep_view(), cur@);
    }
    *buf = cur;
    Ok(col_specs)
}

/// Reads the metadata of a result.
pub fn deser_result_metadata(buf: &mut &[u8]) -> (r: StdResult<ResultMetadata, ParseError>)
    ensures
        match r {
            Ok(v) => parse_result_metadata(old(buf)@) == Ok::<_, ParseError>((v@, final(buf)@)),
            Err(e) => parse_result_metadata(old(buf)@) == Err::<(ResultMetadataView, Seq<u8>), _>(
                e,
            ) && final(buf)@ == old(buf)@,
        },
{
    reveal(parse_result_metadata);
    let mut cur: &[u8] = *buf;
    let flags = read_int(&mut cur)?;
    let global_tables_spec = flags & 0x0001 != 0;
    let has_more_pages = flags & 0x0002 != 0;
    let no_metadata = flags & 0x0004 != 0;

    let col_count = read_int(&mut cur)?;
    if col_count < 0 {
        return Err(ParseError::NegativeLength(col_count));
    }
    let col_count = col_count as usize;

    let paging_state = if has_more_pages {
        Some(bytes_from_slice(read_bytes(&mut cur)?))
    } else {
        None
    };

    if no_metadata {
        *buf = cur;
        let metadata = ResultMetadata { col_count, paging_state, col_specs: Vec::new() };
        assert(metadata.col_specs.deep_view() =~= Seq::empty());
        return Ok(metadata);
    }
    let global_table_spec = if global_tables_spec {
        Some(deser_table_spec(&mut cur)?)
    } else {
        None
    };

    let col_specs = deser_col_specs(&mut cur, &global_table_spec, col_count)?;
    *buf = cur;
    Ok(ResultMetadata { col_count, paging_state, col_specs })
}

/// Reads `count` numbers, each a `[short]`.
fn deser_shorts(buf: &mut &[u8], count: usize) -> (r: StdResult<Vec<u16>, ParseError>)
    ensures
        match r {
            Ok(v) => parse_shorts(count as nat, old(buf)@) == Ok::<_, ParseError>(
                (v@, final(buf)@),
            ),
            Err(e) => parse_shorts(count as nat, old(buf)@) == Err::<(Seq<u16>, Seq<u8>), _>(e)
                && final(buf)@ == old(buf)@,
        },
{
    let mut cur: &[u8] = *buf;
    let mut shorts: Vec<u16> = Vec::new();
    let mut i: usize = 0;
    proof {
        lemma_prepend_empty(parse_shorts(count as nat, cur@));
    }
    while i < count
        invariant
            i <= count,
            buf@ == old(buf)@,
            parse_shorts(count as nat, old(buf)@) == prepend(
                shorts@,
                parse_shorts((count - i) as nat, cur@),
            ),
        decreases count - i,
    {
        let ghost done = shorts@;
        let short = read_short(&mut cur)?;
        shorts.push(short);
        i += 1;
        proof {
            lemma_prepend_push(done, short, parse_shorts((count - i) as nat, cur@));
        }
    }
    proof {
        lemma_prepend_none_left(shorts@, cur@);
    }
    *buf = cur;
    Ok(shorts)
}

/// Reads the metadata of a prepared statement.
pub fn deser_prepared_metadata(buf: &mut &[u8]) -> (r: StdResult<PreparedMetadata, ParseError>)
    ensures
        match r {
            Ok(v) => parse_prepared_metadata(old(buf)@) == Ok::<_, ParseError>((v@, final(buf)@)),
            Err(e) => parse_prepared_metadata(old(buf)@) == Err::<
                (PreparedMetadataView, Seq<u8>),
                _,
            >(e) && final(buf)@ == old(buf)@,
        },
{
    reveal(parse_prepared_metadata);
    let mut cur: &[u8] = *buf;
    let flags = read_int(&mut cur)?;
    let global_tables_spec = flags & 0x0001 != 0;

    let col_count = read_int(&mut cur)?;
    if col_count < 0 {
        return Err(ParseError::NegativeLength(col_count));
    }
    let col_count = col_count as usize;

    let pk_count = read_int(&mut cur)?;
    if pk_count < 0 {
        return Err(ParseError::NegativeLength(pk_count));
    }
    let pk_count = pk_count as usize;

    let pk_indexes = deser_shorts(&mut cur, pk_count)?;

    let global_table_spec = if global_tables_spec {
        Some(deser_table_spec(&mut cur)?)
    } else {
        None
    };

    let col_specs = deser_col_specs(&mut cur, &global_table_spec, col_count)?;
    *buf = cur;
    Ok(PreparedMetadata { col_count, pk_indexes, col_specs })
}

/// Reads the columns of one row.
fn deser_row(col_specs: &Vec<ColumnSpec>, buf: &mut &[u8]) -> (r: StdResult<Row, ParseError>)
    ensures
        match r {
            Ok(v) => parse_row_from(col_specs.deep_view(), 0, old(buf)@) == Ok::<_, ParseError>(
                (v@, final(buf)@),
            ),
            Err(e) => parse_row_from(col_specs.deep_view(), 0, old(buf)@) == Err::<
                (Seq<Option<CqlValueView>>, Seq<u8>),
                _,
            >(e) && final(buf)@ == old(buf)@,
        },
{
    let ghost specs = col_specs.deep_view();
    let mut cur: &[u8] = *buf;
    let mut columns: Vec<Option<CQLValue>> = Vec::new();
    let mut i: usize = 0;
    proof {
        lemma_prepend_empty(parse_row_from(specs, 0, cur@));
        assert(columns.deep_view() =~= Seq::empty());
    }
    while i < col_specs.len()
        invariant
            i <= col_specs@.len(),
            buf@ == old(buf)@,
            specs == col_specs.deep_view(),
            parse_row_from(specs, 0, old(buf)@) == prepend(
                columns.deep_view(),
                parse_row_from(specs, i as nat, cur@),
            ),
        decreases col_specs@.len() - i,
    {
        let ghost done = columns.deep_view();
        let v = match read_bytes_opt(&mut cur)? {
            Some(raw) => {
                let mut raw = raw;
                Some(deser_cql_value(&col_specs[i].typ, &mut raw)?)
            },
            None => None,
        };
        let ghost column = v.deep_view();
        columns.push(v);
        i += 1;
        proof {
            assert(columns.deep_view() =~= done.push(column));
            lemma_prepend_push(done, column, parse_row_from(specs, i as nat, cur@));
        }
    }
    proof {
        lemma_prepend_none_left(columns.deep_view(), cur@);
    }
    *buf = cur;
    Ok(Row { columns })
}

/// Reads `count` rows.
fn deser_row_list(col_specs: &Vec<ColumnSpec>, buf: &mut &[u8], count: usize) -> (r: StdResult<
    Vec<Row>,
    ParseError,
>)
    ensures
        match r {
            Ok(v) => parse_row_list(col_specs.deep_view(), count as nat, old(buf)@) == Ok::<
                _,
                ParseError,
            >((v.deep_view(), final(buf)@)),
            Err(e) => parse_row_list(col_specs.deep_view(), count as nat, old(buf)@) == Err::<
                (Seq<Seq<Option<CqlValueView>>>, Seq<u8>),
                _,
            >(e) && final(buf)@ == old(buf)@,
        },
{
    let ghost specs = col_specs.deep_view();
    let mut cur: &[u8] = *buf;
    let mut rows: Vec<Row> = Vec::new();
    let mut i: usize = 0;
    proof {
        lemma_prepend_empty(parse_row_list(specs, count as nat, cur@));
        assert(rows.deep_view() =~= Seq::empty());
    }
    while i < count
        invariant
            i <= count,
            buf@ == old(buf)@,
            specs == col_specs.deep_view(),
            parse_row_list(specs, count as nat, old(buf)@) == prepend(
                rows.deep_view(),
                parse_row_list(specs, (count - i) as nat, cur@),
            ),
        decreases count - i,
    {
        let ghost done = rows.deep_view();
        let row = deser_row(col_specs, &mut cur)?;
        let ghost row_view = row@;
        rows.push(row);
        i += 1;
        proof {
            assert(rows.deep_view() =~= done.push(row_view));
            lemma_prepend_push(done, row_view, parse_row_list(specs, (count - i) as nat, cur@));
        }
    }
    proof {
        lemma_prepend_none_left(rows.deep_view(), cur@);
    }
    *buf = cur;
    Ok(rows)
}

/// Reads a page of rows. The metadata must specify as many columns as it
/// counts.
pub fn deser_rows(buf: &mut &[u8]) -> (r: StdResult<Rows, ParseError>)
    ensures
        match r {
            Ok(v) => parse_rows(old(buf)@) == Ok::<_, ParseError>((v@, final(buf)@)),
            Err(e) => parse_rows(old(buf)@) == Err::<(RowsView, Seq<u8>), _>(e) && final(buf)@
                == old(buf)@,
        },
{
    reveal(parse_rows);
    let mut cur: &[u8] = *buf;
    let metadata = deser_result_metadata(&mut cur)?;
    if metadata.col_count != metadata.col_specs.len() {
        return Err(ParseError::MissingColumnSpecs);
    }
    let rows_count = read_int(&mut cur)?;
    if rows_count < 0 {
        return Err(ParseError::NegativeLength(rows_count));
    }
    let rows_count = rows_count as usize;
    let rows = deser_row_list(&metadata.col_specs, &mut cur, rows_count)?;
    *buf = cur;
    Ok(Rows { metadata, rows_count, rows })
}

/// Reads the answer to a `USE`: nothing of it is looked at.
pub fn deser_set_keyspace(buf: &mut &[u8]) -> (r: StdResult<SetKeyspace, ParseError>)
    ensures
        r is Ok,
        final(buf)@ == old(buf)@,
{
    Ok(SetKeyspace {  })
}

/// Reads the answer to a `PREPARE`.
pub fn deser_prepared(buf: &mut &[u8]) -> (r: StdResult<Prepared, ParseError>)
    ensures
        match r {
            Ok(v) => parse_prepared(old(buf)@) == Ok::<_, ParseError>((v@, final(buf)@)),
            Err(e) => parse_prepared(old(buf)@) == Err::<(PreparedView, Seq<u8>), _>(e)
                && final(buf)@ == old(buf)@,
        },
{
    reveal(parse_prepared);
    let mut cur: &[u8] = *buf;
    let id = bytes_from_slice(read_short_bytes(&mut cur)?);
    let prepared_metadata = deser_prepared_metadata(&mut cur)?;
    let result_metadata = deser_result_metadata(&mut cur)?;
    *buf = cur;
    Ok(Prepared { id, prepared_metadata, result_metadata })
}

/// Reads the answer to a statement that changed the schema: nothing of it is
/// looked at.
pub fn deser_schema_change(buf: &mut &[u8]) -> (r: StdResult<SchemaChange, ParseError>)
    ensures
        r is Ok,
        final(buf)@ == old(buf)@,
{
    Ok(SchemaChange {  })
}

/// Reads the body of a `RESULT` message.
pub fn deserialize(buf: &mut &[u8]) -> (r: StdResult<Result, ParseError>)
    ensures
        match r {
            Ok(v) => parse_result(old(buf)@) == Ok::<_, ParseError>((v@, final(buf)@)),
            Err(e) => parse_result(old(buf)@) == Err::<(ResultView, Seq<u8>), _>(e) && final(buf)@
                == old(buf)@,
        },
{
    let mut cur: &[u8] = *buf;
    let result = match read_int(&mut cur)? {
        0x0001 => Result::Void,
        0x0002 => Result::Rows(deser_rows(&mut cur)?),
        0x0003 => Result::SetKeyspace(deser_set_keyspace(&mut cur)?),
        0x0004 => Result::Prepared(deser_prepared(&mut cur)?),
        0x0005 => Result::SchemaChange(deser_schema_change(&mut cur)?),
        k => {
            return Err(ParseError::UnknownResultKind(k));
        },
    };
    *buf = cur;
    Ok(result)
}

} // verus!
