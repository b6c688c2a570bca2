//! Values on their way to the server: how a value is laid out on the wire,
//! and the list of values bound to a statement.

use crate::frame::frame_errors::{ParseError, SerializeError};
use crate::frame::response::result::{
    lemma_ascii_chars_encode, lemma_values_view, parse_cql_value, parse_set_items, ColumnType,
    CQLValue, CqlValueView,
};
use crate::frame::types::{
    bytes_opt_wire, bytes_wire, i32_to_be, i64_to_be, int_wire, lemma_i32_be_roundtrip,
    lemma_i64_be_roundtrip, lemma_parse_bytes_wire, lemma_parse_int_wire, write_bytes,
    write_bytes_opt, write_int, write_long, write_short,
};
use vstd::prelude::*;
use vstd::slice::slice_to_vec;
use vstd::utf8::{encode_utf8, is_ascii_chars};

verus! {

/// The bytes of a value on the wire, without a length in front. Texts are
/// their UTF-8, numbers are in network byte order, an address is its bytes,
/// and a set is its count as an `[int]` followed by each element as `[bytes]`.
pub open spec fn value_wire(v: CqlValueView) -> Seq<u8>
    decreases v,
{
    match v {
        CqlValueView::Ascii(s) => encode_utf8(s),
        CqlValueView::Int(i) => i32_to_be(i as int),
        CqlValueView::BigInt(i) => i64_to_be(i as int),
        CqlValueView::Text(s) => encode_utf8(s),
        CqlValueView::Inet(a) => a,
        CqlValueView::CqlSet(items) => int_wire(items.len() as i32) + set_items_wire(items),
    }
}

/// The elements of a set on the wire, one after the other, each as `[bytes]`.
pub open spec fn set_items_wire(items: Seq<CqlValueView>) -> Seq<u8>
    decreases items,
{
    if items.len() == 0 {
        Seq::empty()
    } else {
        bytes_wire(value_wire(items[0])) + set_items_wire(items.subrange(1, items.len() as int))
    }
}

/// The value can be written: no set has more elements, and no element more
/// bytes, than an `[int]` can say.
pub open spec fn value_fits(v: CqlValueView) -> bool
    decreases v,
{
    match v {
        CqlValueView::CqlSet(items) => items.len() <= i32::MAX && forall|i: int|
            0 <= i < items.len() ==> value_fits(#[trigger] items[i]) && value_wire(items[i]).len()
                <= i32::MAX,
        _ => true,
    }
}

/// The value is one of type `typ`: it is of that kind, an `ascii` holds only
/// characters below 128, an address has four or sixteen bytes, and the
/// elements of a set are of the set's element type.
pub open spec fn value_has_type(v: CqlValueView, typ: ColumnType) -> bool
    decreases v,
{
    match (v, typ) {
        (CqlValueView::Ascii(s), ColumnType::Ascii) => is_ascii_chars(s),
        (CqlValueView::Int(_), ColumnType::Int) => true,
        (CqlValueView::BigInt(_), ColumnType::BigInt) => true,
        (CqlValueView::Text(_), ColumnType::Text) => true,
        (CqlValueView::Inet(a), ColumnType::Inet) => a.len() == 4 || a.len() == 16,
        (CqlValueView::CqlSet(items), ColumnType::CqlSet(elem)) => forall|i: int|
            0 <= i < items.len() ==> value_has_type(#[trigger] items[i], *elem),
        _ => false,
    }
}

/// Decoding what was encoded gives the value back: for every value `v` of
/// type `typ` that can be written, the decoder for `typ` reads `v` from the
/// bytes of `v` and leaves nothing.
pub proof fn lemma_value_roundtrip(v: CqlValueView, typ: ColumnType)
    requires
        value_has_type(v, typ),
        value_fits(v),
    ensures
        parse_cql_value(typ, value_wire(v)) == Ok::<_, ParseError>((v, Seq::<u8>::empty())),
    decreases v, 0nat,
{
    broadcast use vstd::utf8::encode_utf8_valid_utf8, vstd::utf8::encode_utf8_decode_utf8;

    match v {
        CqlValueView::Ascii(s) => {
            lemma_ascii_chars_encode(s);
        },
        CqlValueView::Int(i) => {
            lemma_i32_be_roundtrip(i as int);
        },
        CqlValueView::BigInt(i) => {
            lemma_i64_be_roundtrip(i as int);
        },
        CqlValueView::Text(s) => {},
        CqlValueView::Inet(a) => {},
        CqlValueView::CqlSet(items) => {
            let elem = typ->CqlSet_0;
            let count = items.len() as i32;
            lemma_parse_int_wire(count, set_items_wire(items));
            lemma_set_items_roundtrip(items, *elem, Seq::empty());
            assert(set_items_wire(items) + Seq::<u8>::empty() =~= set_items_wire(items));
        },
    }
}

/// Decoding the elements of a set that were encoded gives them back, and
/// what follows them is left.
pub proof fn lemma_set_items_roundtrip(items: Seq<CqlValueView>, elem: ColumnType, rest: Seq<u8>)
    requires
        forall|i: int|
            0 <= i < items.len() ==> value_has_type(#[trigger] items[i], elem) && value_fits(
                items[i],
            ) && value_wire(items[i]).len() <= i32::MAX,
    ensures
        parse_set_items(elem, items.len(), set_items_wire(items) + rest) == Ok::<_, ParseError>(
            (items, rest),
        ),
    decreases items, 1nat,
{
    if items.len() > 0 {
        let first = items[0];
        let others = items.subrange(1, items.len() as int);
        let raw = value_wire(first);
        assert(set_items_wire(items) + rest =~= bytes_wire(raw) + (set_items_wire(others) + rest));
        lemma_parse_bytes_wire(raw, set_items_wire(others) + rest);
        lemma_value_roundtrip(first, elem);
        assert forall|i: int| 0 <= i < others.len() implies value_has_type(
            #[trigger] others[i],
            elem,
        ) && value_fits(others[i]) && value_wire(others[i]).len() <= i32::MAX by {
            assert(others[i] == items[i + 1]);
        }
        lemma_set_items_roundtrip(others, elem, rest);
        assert(seq![first] + others =~= items);
        assert(others.len() == (items.len() - 1) as nat);
    } else {
        assert(set_items_wire(items) + rest =~= rest);
        assert(items =~= Seq::empty());
    }
}

/// The bytes of a set's elements with one more element are those of the
/// elements before it, followed by the new one as `[bytes]`.
pub proof fn lemma_set_items_wire_push(items: Seq<CqlValueView>, last: CqlValueView)
    ensures
        set_items_wire(items.push(last)) == set_items_wire(items) + bytes_wire(value_wire(last)),
    decreases items.len(),
{
    let all = items.push(last);
    if items.len() == 0 {
        assert(all.subrange(1, all.len() as int) =~= Seq::<CqlValueView>::empty());
        assert(set_items_wire(all.subrange(1, all.len() as int)) =~= Seq::<u8>::empty());
        assert(set_items_wire(all) =~= set_items_wire(items) + bytes_wire(value_wire(last)));
    } else {
        let others = items.subrange(1, items.len() as int);
        assert(all.subrange(1, all.len() as int) =~= others.push(last));
        lemma_set_items_wire_push(others, last);
        assert(set_items_wire(all) =~= set_items_wire(items) + bytes_wire(value_wire(last)));
    }
}

/// Appends the bytes of a value, without a length in front. Fails, and
/// appends nothing, when a set in it has more elements, or an element more
/// bytes, than an `[int]` can say.
pub fn write_cql_value(v: &CQLValue, buf: &mut Vec<u8>) -> (r: Result<(), SerializeError>)
    ensures
        r is Ok <==> value_fits(v@),
        r is Ok ==> final(buf)@ == old(buf)@ + value_wire(v@),
        r is Err ==> r == Err::<(), _>(SerializeError::IntLengthOverflow) && final(buf)@ == old(
            buf)@,
    decreases *v,
{
    match v {
        CQLValue::Ascii(s) => {
            buf.extend_from_slice(s.as_str().as_bytes());
            assert(buf@ =~= old(buf)@ + value_wire(v@));
            Ok(())
        },
        CQLValue::Int(i) => {
            write_int(*i, buf);
            Ok(())
        },
        CQLValue::BigInt(i) => {
            write_long(*i, buf);
            Ok(())
        },
        CQLValue::Text(s) => {
            buf.extend_from_slice(s.as_str().as_bytes());
            assert(buf@ =~= old(buf)@ + value_wire(v@));
            Ok(())
        },
        CQLValue::Inet(a) => {
            match a {
                crate::frame::response::result::InetAddress::V4(octets) => {
                    buf.extend_from_slice(octets.as_slice());
                },
                crate::frame::response::result::InetAddress::V6(octets) => {
                    buf.extend_from_slice(octets.as_slice());
                },
            }
            assert(buf@ =~= old(buf)@ + value_wire(v@));
            Ok(())
        },
        CQLValue::CqlSet(items) => {
            proof {
                lemma_values_view(*items);
            }
            let start = buf.len();
            if items.len() > i32::MAX as usize {
                return Err(SerializeError::IntLengthOverflow);
            }
            write_int(items.len() as i32, buf);
            let ghost views = items.deep_view();
            let mut i: usize = 0;
            assert(views.take(0) =~= Seq::<CqlValueView>::empty());
            assert(buf@ =~= old(buf)@ + int_wire(items.len() as i32) + set_items_wire(
                views.take(0),
            ));
            while i < items.len()
                invariant
                    i <= items.len() <= i32::MAX,
                    *v == CQLValue::CqlSet(*items),
                    views == items.deep_view(),
                    v@ == CqlValueView::CqlSet(views),
                    start == old(buf)@.len(),
                    buf@ == old(buf)@ + int_wire(items.len() as i32) + set_items_wire(
                        views.take(i as int),
                    ),
                    forall|j: int|
                        0 <= j < i ==> value_fits(#[trigger] views[j]) && value_wire(views[j]).len()
                            <= i32::MAX,
                decreases items.len() - i,
            {
                let mut element: Vec<u8> = Vec::new();
                let written = match write_cql_value(&items[i], &mut element) {
                    Ok(()) => write_bytes(element.as_slice(), buf),
                    Err(e) => Err(e),
                };
                if written.is_err() {
                    buf.truncate(start);
                    assert(buf@ =~= old(buf)@);
                    assert(!value_fits(views[i as int]) || value_wire(views[i as int]).len()
                        > i32::MAX);
                    return Err(SerializeError::IntLengthOverflow);
                }
                proof {
                    assert(element@ =~= value_wire(views[i as int]));
                    lemma_set_items_wire_push(views.take(i as int), views[i as int]);
                    assert(views.take(i as int).push(views[i as int]) =~= views.take(i + 1));
                }
                i += 1;
            }
            assert(views.take(i as int) =~= views);
            Ok(())
        },
    }
}

/// Why a list of bound values cannot take another value.
#[derive(Debug, Clone, Copy, PartialEq, Eq)]
pub enum SerializeValuesError {
    /// The list already holds as many values as a request can carry.
    TooManyValues,
    /// The value has more bytes than an `[int]` can say.
    ValueTooBig,
}

/// The values bound to a statement, in the order of the bind markers. Each is
/// null or the bytes of a value as they go on the wire.
pub struct SerializedValues {
    values: Vec<Option<Vec<u8>>>,
}

impl View for SerializedValues {
    type V = Seq<Option<Seq<u8>>>;

    closed spec fn view(&self) -> Seq<Option<Seq<u8>>> {
        self.values.deep_view()
    }
}

impl DeepView for SerializedValues {
    type V = Seq<Option<Seq<u8>>>;

    open spec fn deep_view(&self) -> Seq<Option<Seq<u8>>> {
        self@
    }
}

/// A list of bound values on the wire: each value as `[bytes]` that may be
/// null, one after the other.
pub open spec fn values_wire(values: Seq<Option<Seq<u8>>>) -> Seq<u8>
    decreases values.len(),
{
    if values.len() == 0 {
        Seq::empty()
    } else {
        values_wire(values.drop_last()) + bytes_opt_wire(values.last())
    }
}

impl SerializedValues {
    /// No list holds more than `i16::MAX` values, and no value more than
    /// `i32::MAX` bytes.
    #[verifier::type_invariant]
    spec fn inv(self) -> bool {
        &&& self.values@.len() <= i16::MAX
        &&& forall|i: int|
            0 <= i < self.values@.len() ==> (#[trigger] self.values@[i] matches Some(b)
                ==> b@.len() <= i32::MAX)
    }

    /// An empty list.
    pub fn new() -> (r: Self)
        ensures
            r@ == Seq::<Option<Seq<u8>>>::empty(),
    {
        let r = SerializedValues { values: Vec::new() };
        assert(r@ =~= Seq::<Option<Seq<u8>>>::empty());
        r
    }

    /// Appends a value given by its bytes, or null. Fails, and changes
    /// nothing, when the list is full or the value has more bytes than an
    /// `[int]` can say; a full list is reported first.
    pub fn add_raw(&mut self, value: Option<&[u8]>) -> (r: Result<(), SerializeValuesError>)
        ensures
            match r {
                Ok(()) => final(self)@ == old(self)@.push(
                    match value {
                        Some(b) => Some(b@),
                        None => None,
                    },
                ),
                Err(e) => final(self)@ == old(self)@ && e == (if old(self)@.len() >= i16::MAX {
                    SerializeValuesError::TooManyValues
                } else {
                    SerializeValuesError::ValueTooBig
                }),
            },
            r is Ok <==> old(self)@.len() < i16::MAX && (value matches Some(b) ==> b@.len()
                <= i32::MAX),
    {
        proof {
            use_type_invariant(&*self);
        }
        if self.values.len() >= i16::MAX as usize {
            return Err(SerializeValuesError::TooManyValues);
        }
        let owned: Option<Vec<u8>> = match value {
            Some(b) => {
                if b.len() > i32::MAX as usize {
                    return Err(SerializeValuesError::ValueTooBig);
                }
                Some(slice_to_vec(b))
            },
            None => None,
        };
        let ghost before = self.values.deep_view();
        let mut taken = SerializedValues { values: Vec::new() };
        core::mem::swap(self, &mut taken);
        let mut values = taken.values;
        values.push(owned);
        assert(values.deep_view() =~= before.push(owned.deep_view()));
        assert(owned.deep_view() == match value {
            Some(b) => Some(b@),
            None => None,
        }) by {
            if let Some(b) = value {
                assert(owned->Some_0.deep_view() =~= b@);
            }
        }
        *self = SerializedValues { values };
        Ok(())
    }

    /// Appends a value of a column. Fails, and changes nothing, when the list
    /// is full or the value cannot be written in so many bytes as an `[int]`
    /// can say; a full list is reported first.
    pub fn add_value(&mut self, value: &CQLValue) -> (r: Result<(), SerializeValuesError>)
        ensures
            match r {
                Ok(()) => final(self)@ == old(self)@.push(Some(value_wire(value@))),
                Err(e) => final(self)@ == old(self)@ && e == (if old(self)@.len() >= i16::MAX {
                    SerializeValuesError::TooManyValues
                } else {
                    SerializeValuesError::ValueTooBig
                }),
            },
            r is Ok <==> old(self)@.len() < i16::MAX && value_fits(value@) && value_wire(
                value@,
            ).len() <= i32::MAX,
    {
        if self.len() >= i16::MAX {
            return Err(SerializeValuesError::TooManyValues);
        }
        let mut raw: Vec<u8> = Vec::new();
        match write_cql_value(value, &mut raw) {
            Ok(()) => {
                assert(raw@ =~= value_wire(value@));
                self.add_raw(Some(raw.as_slice()))
            },
            Err(_) => Err(SerializeValuesError::ValueTooBig),
        }
    }

    /// The number of values.
    pub fn len(&self) -> (r: i16)
        ensures
            r == self@.len(),
    {
        proof {
            use_type_invariant(self);
        }
        self.values.len() as i16
    }

    /// Tells whether the list holds no value.
    pub fn is_empty(&self) -> (r: bool)
        ensures
            r == (self@.len() == 0),
    {
        self.values.len() == 0
    }

    /// The value at a position: `None` past the end, `Some(None)` for null.
    /// No value has more bytes than an `[int]` can say.
    pub fn get(&self, index: usize) -> (r: Option<Option<&[u8]>>)
        ensures
            match r {
                None => index >= self@.len(),
                Some(None) => index < self@.len() && self@[index as int] is None,
                Some(Some(b)) => index < self@.len() && self@[index as int] == Some(b@)
                    && b@.len() <= i32::MAX,
            },
    {
        proof {
            use_type_invariant(self);
        }
        if index >= self.values.len() {
            return None;
        }
        match &self.values[index] {
            Some(b) => Some(Some(b.as_slice())),
            None => Some(None),
        }
    }

    /// Appends the list as a request carries it: the number of values as a
    /// `[short]`, then the values.
    pub fn write_to_request(&self, buf: &mut Vec<u8>)
        ensures
            final(buf)@ == old(buf)@ + crate::frame::types::short_wire(self@.len() as u16)
                + values_wire(self@),
    {
        proof {
            use_type_invariant(self);
        }
        write_short(self.values.len() as u16, buf);
        let ghost all = self@;
        let mut i: usize = 0;
        assert(all.take(0) =~= Seq::<Option<Seq<u8>>>::empty());
        assert(buf@ =~= old(buf)@ + crate::frame::types::short_wire(all.len() as u16)
            + values_wire(all.take(0)));
        while i < self.values.len()
            invariant
                i <= self.values@.len(),
                all == self.values.deep_view(),
                self.inv(),
                buf@ == old(buf)@ + crate::frame::types::short_wire(all.len() as u16)
                    + values_wire(all.take(i as int)),
            decreases self.values@.len() - i,
        {
            let item: Option<&[u8]> = match &self.values[i] {
                Some(b) => Some(b.as_slice()),
                None => None,
            };
            let written = write_bytes_opt(item, buf);
            proof {
                assert(written is Ok);
                assert(all.take(i + 1).drop_last() =~= all.take(i as int));
                assert(all.take(i + 1).last() == all[i as int]);
            }
            i += 1;
        }
        assert(all.take(i as int) =~= all);
    }
}

} // verus!
