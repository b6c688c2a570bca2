//! The body of a `RESULT` on the wire, and the law that ties it to the
//! readers: what is written as the protocol says is read back as it was.

use crate::frame::frame_errors::ParseError;
use crate::frame::response::result::{
    parse_col_spec, parse_col_specs, parse_column, parse_global_table_spec, parse_paging_state,
    parse_prepared, parse_prepared_metadata, parse_result, parse_result_metadata,
    parse_row_from, parse_row_list, parse_rows, parse_shorts, parse_table_spec, parse_type,
    ColumnSpecView, ColumnType, CqlValueView, PreparedMetadataView, PreparedView,
    ResultMetadataView, ResultView, RowsView, TableSpecView,
};
use crate::frame::types::{
    bytes_opt_wire, bytes_wire, int_wire, lemma_parse_bytes_opt_wire, lemma_parse_bytes_wire,
    lemma_parse_int_wire, lemma_parse_short_bytes_wire, lemma_parse_short_wire,
    lemma_parse_string_wire, short_bytes_wire, short_wire, string_wire,
};
use crate::frame::value::{lemma_value_roundtrip, value_fits, value_has_type, value_wire};
use vstd::prelude::*;
use vstd::utf8::encode_utf8;

verus! {

/// A table specification on the wire: the keyspace and the table, each a
/// `[string]`.
pub open spec fn table_spec_wire(table: TableSpecView) -> Seq<u8> {
    string_wire(table.ks_name) + string_wire(table.table_name)
}

/// The names of a table specification can be written.
pub open spec fn table_spec_fits(table: TableSpecView) -> bool {
    encode_utf8(table.ks_name).len() <= u16::MAX && encode_utf8(table.table_name).len()
        <= u16::MAX
}

/// A column type on the wire: its id as a `[short]` and, for a set, the
/// type of its elements.
pub open spec fn type_wire(typ: ColumnType) -> Seq<u8>
    decreases typ,
{
    match typ {
        ColumnType::Ascii => short_wire(0x0001),
        ColumnType::BigInt => short_wire(0x0002),
        ColumnType::Int => short_wire(0x0009),
        ColumnType::Text => short_wire(0x000D),
        ColumnType::Inet => short_wire(0x0010),
        ColumnType::CqlSet(elem) => short_wire(0x0022) + type_wire(*elem),
    }
}

/// A column specification on the wire, where no table specification is
/// shared: the table specification, the name and the type.
#[verifier::opaque]
pub open spec fn col_spec_wire(spec: ColumnSpecView) -> Seq<u8> {
    table_spec_wire(spec.table_spec) + string_wire(spec.name) + type_wire(spec.typ)
}

/// The names of a column specification can be written.
pub open spec fn col_spec_fits(spec: ColumnSpecView) -> bool {
    table_spec_fits(spec.table_spec) && encode_utf8(spec.name).len() <= u16::MAX
}

/// Column specifications on the wire, one after the other.
#[verifier::opaque]
pub open spec fn col_specs_wire(specs: Seq<ColumnSpecView>) -> Seq<u8>
    decreases specs.len(),
{
    if specs.len() == 0 {
        Seq::empty()
    } else {
        col_spec_wire(specs[0]) + col_specs_wire(specs.skip(1))
    }
}

/// The names of all column specifications can be written.
pub open spec fn col_specs_fit(specs: Seq<ColumnSpecView>) -> bool {
    forall|i: int| 0 <= i < specs.len() ==> col_spec_fits(#[trigger] specs[i])
}

/// The flags of result metadata that is written in full, without a table
/// specification that the columns share: only whether more pages follow.
pub open spec fn metadata_flags(paging_state: Option<Seq<u8>>) -> i32 {
    if paging_state is Some {
        0x0002
    } else {
        0
    }
}

/// Result metadata on the wire: the flags, the number of columns, the
/// paging state if there is one, and the column specifications.
#[verifier::opaque]
pub open spec fn result_metadata_wire(metadata: ResultMetadataView) -> Seq<u8> {
    int_wire(metadata_flags(metadata.paging_state)) + int_wire(metadata.col_count as i32) + (
    match metadata.paging_state {
        Some(state) => bytes_wire(state),
        None => Seq::empty(),
    }) + col_specs_wire(metadata.col_specs)
}

/// The metadata specifies as many columns as it counts, and can be written.
pub open spec fn result_metadata_fits(metadata: ResultMetadataView) -> bool {
    &&& metadata.col_count == metadata.col_specs.len()
    &&& metadata.col_count <= i32::MAX
    &&& metadata.paging_state matches Some(state) ==> state.len() <= i32::MAX
    &&& col_specs_fit(metadata.col_specs)
}

/// Numbers on the wire, one after the other, each a `[short]`.
#[verifier::opaque]
pub open spec fn shorts_wire(numbers: Seq<u16>) -> Seq<u8>
    decreases numbers.len(),
{
    if numbers.len() == 0 {
        Seq::empty()
    } else {
        short_wire(numbers[0]) + shorts_wire(numbers.skip(1))
    }
}

/// The metadata of a prepared statement on the wire: no flags, the number
/// of bind markers, the indexes of the partition key with their number
/// before them, and the column specifications.
#[verifier::opaque]
pub open spec fn prepared_metadata_wire(metadata: PreparedMetadataView) -> Seq<u8> {
    int_wire(0) + int_wire(metadata.col_count as i32) + int_wire(
        metadata.pk_indexes.len() as i32,
    ) + shorts_wire(metadata.pk_indexes) + col_specs_wire(metadata.col_specs)
}

/// The metadata specifies as many bind markers as it counts, and can be
/// written.
pub open spec fn prepared_metadata_fits(metadata: PreparedMetadataView) -> bool {
    &&& metadata.col_count == metadata.col_specs.len()
    &&& metadata.col_count <= i32::MAX
    &&& metadata.pk_indexes.len() <= i32::MAX
    &&& col_specs_fit(metadata.col_specs)
}

/// A column of a row on the wire: `[bytes]`, null for a null column, else
/// the bytes of the value.
pub open spec fn column_wire(column: Option<CqlValueView>) -> Seq<u8> {
    bytes_opt_wire(
        match column {
            Some(v) => Some(value_wire(v)),
            None => None,
        },
    )
}

/// The column is null or holds a value of type `typ` that can be written.
pub open spec fn column_fits(column: Option<CqlValueView>, typ: ColumnType) -> bool {
    column matches Some(v) ==> value_has_type(v, typ) && value_fits(v) && value_wire(v).len()
        <= i32::MAX
}

/// The columns of a row from column `from` on, on the wire.
#[verifier::opaque]
pub open spec fn row_wire(row: Seq<Option<CqlValueView>>, from: nat) -> Seq<u8>
    decreases row.len() - from,
{
    if from >= row.len() {
        Seq::empty()
    } else {
        column_wire(row[from as int]) + row_wire(row, from + 1)
    }
}

/// The row has a column for each specification, of its type.
pub open spec fn row_fits(row: Seq<Option<CqlValueView>>, specs: Seq<ColumnSpecView>) -> bool {
    &&& row.len() == specs.len()
    &&& forall|i: int| 0 <= i < row.len() ==> column_fits(#[trigger] row[i], specs[i].typ)
}

/// Rows on the wire, one after the other.
#[verifier::opaque]
pub open spec fn row_list_wire(rows: Seq<Seq<Option<CqlValueView>>>) -> Seq<u8>
    decreases rows.len(),
{
    if rows.len() == 0 {
        Seq::empty()
    } else {
        row_wire(rows[0], 0) + row_list_wire(rows.skip(1))
    }
}

/// A page of rows on the wire: the metadata, the number of rows and the
/// rows.
#[verifier::opaque]
pub open spec fn rows_wire(rows: RowsView) -> Seq<u8> {
    result_metadata_wire(rows.metadata) + int_wire(rows.rows_count as i32) + row_list_wire(
        rows.rows,
    )
}

/// The page holds as many rows as it counts, each with a column for each
/// specification, and can be written.
pub open spec fn rows_fit(rows: RowsView) -> bool {
    &&& result_metadata_fits(rows.metadata)
    &&& rows.rows_count == rows.rows.len()
    &&& rows.rows_count <= i32::MAX
    &&& forall|i: int|
        0 <= i < rows.rows.len() ==> row_fits(#[trigger] rows.rows[i], rows.metadata.col_specs)
}

/// The answer to a `PREPARE` on the wire: the id, the metadata of the bind
/// markers and the metadata of the result.
#[verifier::opaque]
pub open spec fn prepared_wire(prepared: PreparedView) -> Seq<u8> {
    short_bytes_wire(prepared.id) + prepared_metadata_wire(prepared.prepared_metadata)
        + result_metadata_wire(prepared.result_metadata)
}

/// The answer to a `PREPARE` can be written.
pub open spec fn prepared_fits(prepared: PreparedView) -> bool {
    &&& prepared.id.len() <= u16::MAX
    &&& prepared_metadata_fits(prepared.prepared_metadata)
    &&& result_metadata_fits(prepared.result_metadata)
}

/// The body of a `RESULT` on the wire: its kind as an `[int]`, and what
/// that kind carries.
pub open spec fn result_wire(result: ResultView) -> Seq<u8> {
    match result {
        ResultView::Void => int_wire(0x0001),
        ResultView::Rows(rows) => int_wire(0x0002) + rows_wire(rows),
        ResultView::SetKeyspace => int_wire(0x0003),
        ResultView::Prepared(prepared) => int_wire(0x0004) + prepared_wire(prepared),
        ResultView::SchemaChange => int_wire(0x0005),
    }
}

/// The result can be written: its counts are those of what it holds, its
/// values are of the types of their columns, and everything fits the
/// lengths of the protocol.
pub open spec fn result_fits(result: ResultView) -> bool {
    match result {
        ResultView::Rows(rows) => rows_fit(rows),
        ResultView::Prepared(prepared) => prepared_fits(prepared),
        _ => true,
    }
}

/// A table specification that was written is read back.
pub proof fn lemma_table_spec_roundtrip(table: TableSpecView, rest: Seq<u8>)
    requires
        table_spec_fits(table),
    ensures
        parse_table_spec(table_spec_wire(table) + rest) == Ok::<_, ParseError>((table, rest)),
{
    assert(table_spec_wire(table) + rest =~= string_wire(table.ks_name) + (string_wire(
        table.table_name,
    ) + rest));
    lemma_parse_string_wire(table.ks_name, string_wire(table.table_name) + rest);
    lemma_parse_string_wire(table.table_name, rest);
}

/// A column type that was written is read back.
pub proof fn lemma_type_roundtrip(typ: ColumnType, rest: Seq<u8>)
    ensures
        parse_type(type_wire(typ) + rest) == Ok::<_, ParseError>((typ, rest)),
    decreases typ,
{
    match typ {
        ColumnType::Ascii => lemma_parse_short_wire(0x0001, rest),
        ColumnType::BigInt => lemma_parse_short_wire(0x0002, rest),
        ColumnType::Int => lemma_parse_short_wire(0x0009, rest),
        ColumnType::Text => lemma_parse_short_wire(0x000D, rest),
        ColumnType::Inet => lemma_parse_short_wire(0x0010, rest),
        ColumnType::CqlSet(elem) => {
            assert(type_wire(typ) + rest =~= short_wire(0x0022) + (type_wire(*elem) + rest));
            lemma_parse_short_wire(0x0022, type_wire(*elem) + rest);
            lemma_type_roundtrip(*elem, rest);
        },
    }
}

/// A column specification that was written is read back.
pub proof fn lemma_col_spec_roundtrip(spec: ColumnSpecView, rest: Seq<u8>)
    requires
        col_spec_fits(spec),
    ensures
        parse_col_spec(None, col_spec_wire(spec) + rest) == Ok::<_, ParseError>((spec, rest)),
{
    reveal(col_spec_wire);
    let after_table = string_wire(spec.name) + (type_wire(spec.typ) + rest);
    assert(col_spec_wire(spec) + rest =~= table_spec_wire(spec.table_spec) + after_table);
    lemma_table_spec_roundtrip(spec.table_spec, after_table);
    lemma_parse_string_wire(spec.name, type_wire(spec.typ) + rest);
    lemma_type_roundtrip(spec.typ, rest);
}

/// Column specifications that were written are read back.
pub proof fn lemma_col_specs_roundtrip(specs: Seq<ColumnSpecView>, rest: Seq<u8>)
    requires
        col_specs_fit(specs),
    ensures
        parse_col_specs(None, specs.len(), col_specs_wire(specs) + rest) == Ok::<_, ParseError>(
            (specs, rest),
        ),
    decreases specs.len(),
{
    reveal(col_specs_wire);
    if specs.len() == 0 {
        assert(col_specs_wire(specs) + rest =~= rest);
        assert(specs =~= Seq::empty());
    } else {
        let others = specs.skip(1);
        let after_first = col_specs_wire(others) + rest;
        assert(col_specs_wire(specs) + rest =~= col_spec_wire(specs[0]) + after_first);
        lemma_col_spec_roundtrip(specs[0], after_first);
        assert(col_specs_fit(others)) by {
            assert forall|i: int| 0 <= i < others.len() implies col_spec_fits(
                #[trigger] others[i],
            ) by {
                assert(others[i] == specs[i + 1]);
            }
        }
        lemma_col_specs_roundtrip(others, rest);
        assert(seq![specs[0]] + others =~= specs);
    }
}

/// Numbers that were written are read back.
pub proof fn lemma_shorts_roundtrip(numbers: Seq<u16>, rest: Seq<u8>)
    ensures
        parse_shorts(numbers.len(), shorts_wire(numbers) + rest) == Ok::<_, ParseError>(
            (numbers, rest),
        ),
    decreases numbers.len(),
{
    reveal(shorts_wire);
    if numbers.len() == 0 {
        assert(shorts_wire(numbers) + rest =~= rest);
        assert(numbers =~= Seq::empty());
    } else {
        let others = numbers.skip(1);
        let after_first = shorts_wire(others) + rest;
        assert(shorts_wire(numbers) + rest =~= short_wire(numbers[0]) + after_first);
        lemma_parse_short_wire(numbers[0], after_first);
        lemma_shorts_roundtrip(others, rest);
        assert(seq![numbers[0]] + others =~= numbers);
    }
}

/// Result metadata that was written is read back.
pub proof fn lemma_result_metadata_roundtrip(metadata: ResultMetadataView, rest: Seq<u8>)
    requires
        result_metadata_fits(metadata),
    ensures
        parse_result_metadata(result_metadata_wire(metadata) + rest) == Ok::<_, ParseError>(
            (metadata, rest),
        ),
{
    reveal(parse_result_metadata);
    reveal(result_metadata_wire);
    let flags = metadata_flags(metadata.paging_state);
    let count = metadata.col_count as i32;
    let state = match metadata.paging_state {
        Some(state) => bytes_wire(state),
        None => Seq::empty(),
    };
    let after_state = col_specs_wire(metadata.col_specs) + rest;
    let after_count = state + after_state;
    let after_flags = int_wire(count) + after_count;
    assert(result_metadata_wire(metadata) + rest =~= int_wire(flags) + after_flags);
    lemma_parse_int_wire(flags, after_flags);
    lemma_parse_int_wire(count, after_count);
    assert(0x0002i32 & 0x0002 != 0 && 0x0002i32 & 0x0004 == 0 && 0x0002i32 & 0x0001 == 0
        && 0i32 & 0x0002 == 0 && 0i32 & 0x0004 == 0 && 0i32 & 0x0001 == 0) by (bit_vector);
    match metadata.paging_state {
        Some(paging_state) => {
            lemma_parse_bytes_wire(paging_state, after_state);
        },
        None => {
            assert(after_count =~= after_state);
        },
    }
    assert(parse_paging_state(flags, after_count) == Ok::<_, ParseError>(
        (metadata.paging_state, after_state),
    ));
    assert(parse_global_table_spec(flags, after_state) == Ok::<_, ParseError>(
        (None::<TableSpecView>, after_state),
    ));
    lemma_col_specs_roundtrip(metadata.col_specs, rest);
}

/// The metadata of a prepared statement that was written is read back.
pub proof fn lemma_prepared_metadata_roundtrip(metadata: PreparedMetadataView, rest: Seq<u8>)
    requires
        prepared_metadata_fits(metadata),
    ensures
        parse_prepared_metadata(prepared_metadata_wire(metadata) + rest) == Ok::<_, ParseError>(
            (metadata, rest),
        ),
{
    reveal(parse_prepared_metadata);
    reveal(prepared_metadata_wire);
    let count = metadata.col_count as i32;
    let pk_count = metadata.pk_indexes.len() as i32;
    let after_indexes = col_specs_wire(metadata.col_specs) + rest;
    let after_pk_count = shorts_wire(metadata.pk_indexes) + after_indexes;
    let after_count = int_wire(pk_count) + after_pk_count;
    let after_flags = int_wire(count) + after_count;
    assert(prepared_metadata_wire(metadata) + rest =~= int_wire(0) + after_flags);
    lemma_parse_int_wire(0, after_flags);
    lemma_parse_int_wire(count, after_count);
    lemma_parse_int_wire(pk_count, after_pk_count);
    lemma_shorts_roundtrip(metadata.pk_indexes, after_indexes);
    assert(0i32 & 0x0001 == 0) by (bit_vector);
    assert(parse_global_table_spec(0, after_indexes) == Ok::<_, ParseError>(
        (None::<TableSpecView>, after_indexes),
    ));
    lemma_col_specs_roundtrip(metadata.col_specs, rest);
}

/// A column that was written is read back as a column of its type.
pub proof fn lemma_column_roundtrip(column: Option<CqlValueView>, typ: ColumnType, rest: Seq<u8>)
    requires
        column_fits(column, typ),
    ensures
        parse_column(typ, column_wire(column) + rest) == Ok::<_, ParseError>((column, rest)),
{
    match column {
        Some(v) => {
            lemma_parse_bytes_opt_wire(Some(value_wire(v)), rest);
            lemma_value_roundtrip(v, typ);
        },
        None => {
            lemma_parse_bytes_opt_wire(None, rest);
        },
    }
}

/// The columns of a row that were written are read back.
pub proof fn lemma_row_roundtrip(
    row: Seq<Option<CqlValueView>>,
    specs: Seq<ColumnSpecView>,
    from: nat,
    rest: Seq<u8>,
)
    requires
        row_fits(row, specs),
        from <= row.len(),
    ensures
        parse_row_from(specs, from, row_wire(row, from) + rest) == Ok::<_, ParseError>(
            (row.skip(from as int), rest),
        ),
    decreases row.len() - from,
{
    reveal(row_wire);
    if from >= row.len() {
        assert(row_wire(row, from) + rest =~= rest);
        assert(row.skip(from as int) =~= Seq::empty());
    } else {
        let after_first = row_wire(row, from + 1) + rest;
        assert(row_wire(row, from) + rest =~= column_wire(row[from as int]) + after_first);
        lemma_column_roundtrip(row[from as int], specs[from as int].typ, after_first);
        lemma_row_roundtrip(row, specs, from + 1, rest);
        assert(seq![row[from as int]] + row.skip(from as int + 1) =~= row.skip(from as int));
    }
}

/// Rows that were written are read back.
pub proof fn lemma_row_list_roundtrip(
    rows: Seq<Seq<Option<CqlValueView>>>,
    specs: Seq<ColumnSpecView>,
    rest: Seq<u8>,
)
    requires
        forall|i: int| 0 <= i < rows.len() ==> row_fits(#[trigger] rows[i], specs),
    ensures
        parse_row_list(specs, rows.len(), row_list_wire(rows) + rest) == Ok::<_, ParseError>(
            (rows, rest),
        ),
    decreases rows.len(),
{
    reveal(row_list_wire);
    if rows.len() == 0 {
        assert(row_list_wire(rows) + rest =~= rest);
        assert(rows =~= Seq::empty());
    } else {
        let others = rows.skip(1);
        let after_first = row_list_wire(others) + rest;
        assert(row_list_wire(rows) + rest =~= row_wire(rows[0], 0) + after_first);
        lemma_row_roundtrip(rows[0], specs, 0, after_first);
        assert(rows[0].skip(0) =~= rows[0]);
        assert forall|i: int| 0 <= i < others.len() implies row_fits(
            #[trigger] others[i],
            specs,
        ) by {
            assert(others[i] == rows[i + 1]);
        }
        lemma_row_list_roundtrip(others, specs, rest);
        assert(seq![rows[0]] + others =~= rows);
    }
}

/// A page of rows that was written is read back.
pub proof fn lemma_rows_roundtrip(rows: RowsView, rest: Seq<u8>)
    requires
        rows_fit(rows),
    ensures
        parse_rows(rows_wire(rows) + rest) == Ok::<_, ParseError>((rows, rest)),
{
    reveal(parse_rows);
    reveal(rows_wire);
    let count = rows.rows_count as i32;
    let after_count = row_list_wire(rows.rows) + rest;
    let after_metadata = int_wire(count) + after_count;
    assert(rows_wire(rows) + rest =~= result_metadata_wire(rows.metadata) + after_metadata);
    lemma_result_metadata_roundtrip(rows.metadata, after_metadata);
    lemma_parse_int_wire(count, after_count);
    lemma_row_list_roundtrip(rows.rows, rows.metadata.col_specs, rest);
}

/// The answer to a `PREPARE` that was written is read back.
pub proof fn lemma_prepared_roundtrip(prepared: PreparedView, rest: Seq<u8>)
    requires
        prepared_fits(prepared),
    ensures
        parse_prepared(prepared_wire(prepared) + rest) == Ok::<_, ParseError>((prepared, rest)),
{
    reveal(parse_prepared);
    reveal(prepared_wire);
    let after_markers = result_metadata_wire(prepared.result_metadata) + rest;
    let after_id = prepared_metadata_wire(prepared.prepared_metadata) + after_markers;
    assert(prepared_wire(prepared) + rest =~= short_bytes_wire(prepared.id) + after_id);
    lemma_parse_short_bytes_wire(prepared.id, after_id);
    lemma_prepared_metadata_roundtrip(prepared.prepared_metadata, after_markers);
    lemma_result_metadata_roundtrip(prepared.result_metadata, rest);
}

/// Decoding what was encoded gives the result back: the reader of the body
/// of a `RESULT` reads every result that can be written from its bytes,
/// field by field as it was, and leaves what follows the bytes.
pub proof fn lemma_result_roundtrip(result: ResultView, rest: Seq<u8>)
    requires
        result_fits(result),
    ensures
        parse_result(result_wire(result) + rest) == Ok::<_, ParseError>((result, rest)),
{
    match result {
        ResultView::Void => lemma_parse_int_wire(0x0001, rest),
        ResultView::Rows(rows) => {
            assert(result_wire(result) + rest =~= int_wire(0x0002) + (rows_wire(rows) + rest));
            lemma_parse_int_wire(0x0002, rows_wire(rows) + rest);
            lemma_rows_roundtrip(rows, rest);
        },
        ResultView::SetKeyspace => lemma_parse_int_wire(0x0003, rest),
        ResultView::Prepared(prepared) => {
            assert(result_wire(result) + rest =~= int_wire(0x0004) + (prepared_wire(prepared)
                + rest));
            lemma_parse_int_wire(0x0004, prepared_wire(prepared) + rest);
            lemma_prepared_roundtrip(prepared, rest);
        },
        ResultView::SchemaChange => lemma_parse_int_wire(0x0005, rest),
    }
}

} // verus!
