//! Result rows: the columns of a backend row, converted as a whole or not at
//! all.

use crate::value::{decoded, from_native, NativeValue, NativeView, Value, ValueView};
use vstd::prelude::*;

verus! {

/// One column of a row as the backend gave it.
#[derive(Clone, Debug, PartialEq, Eq)]
pub struct NativeColumn {
    pub name: String,
    pub value: NativeValue,
}

/// One column of a row as the caller gets it.
#[derive(Clone, Debug, PartialEq, Eq)]
pub struct ResultRowEntry {
    pub column_name: String,
    pub value: Value,
}

/// A row of a result: its columns in the order of the query.
pub type ResultRow = Vec<ResultRowEntry>;

impl View for NativeColumn {
    type V = (Seq<char>, NativeView);

    open spec fn view(&self) -> (Seq<char>, NativeView) {
        (self.name@, self.value@)
    }
}

impl View for ResultRowEntry {
    type V = (Seq<char>, ValueView);

    open spec fn view(&self) -> (Seq<char>, ValueView) {
        (self.column_name@, self.value@)
    }
}

pub type NativeRowView = Seq<(Seq<char>, NativeView)>;

pub type RowView = Seq<(Seq<char>, ValueView)>;

pub open spec fn native_row_view(row: Seq<NativeColumn>) -> NativeRowView {
    Seq::new(row.len(), |j: int| row[j]@)
}

pub open spec fn row_view(row: Seq<ResultRowEntry>) -> RowView {
    Seq::new(row.len(), |j: int| row[j]@)
}

pub open spec fn native_rows_view(rows: Seq<Vec<NativeColumn>>) -> Seq<NativeRowView> {
    Seq::new(rows.len(), |i: int| native_row_view(rows[i]@))
}

pub open spec fn rows_view(rows: Seq<Vec<ResultRowEntry>>) -> Seq<RowView> {
    Seq::new(rows.len(), |i: int| row_view(rows[i]@))
}

/// Every column of the row holds a value that the protocol can carry.
pub open spec fn row_convertible(row: NativeRowView) -> bool {
    forall|j: int| 0 <= j < row.len() ==> decoded(#[trigger] row[j].1) is Some
}

/// The row with each column converted, under its own name and in place.
pub open spec fn converted_row(row: NativeRowView) -> RowView {
    Seq::new(row.len(), |j: int| (row[j].0, decoded(row[j].1)->0))
}

pub open spec fn rows_convertible(rows: Seq<NativeRowView>) -> bool {
    forall|i: int| 0 <= i < rows.len() ==> row_convertible(#[trigger] rows[i])
}

pub open spec fn converted_rows(rows: Seq<NativeRowView>) -> Seq<RowView> {
    Seq::new(rows.len(), |i: int| converted_row(rows[i]))
}

/// Where a conversion of rows stopped: the first value, in reading order,
/// that the protocol cannot carry.
#[derive(Clone, Copy, Debug, PartialEq, Eq, Structural)]
pub struct ConversionFault {
    pub row: usize,
    pub column: usize,
    /// The backend's number of the value's type.
    pub type_oid: u32,
}

/// `column` is the first column of `row` that cannot be converted, and its
/// type is `type_oid`.
pub open spec fn first_fault_in_row(row: NativeRowView, column: int, type_oid: u32) -> bool {
    &&& 0 <= column < row.len()
    &&& row[column].1 == NativeView::Unsupported(type_oid)
    &&& row_convertible(row.take(column))
}

/// Converts one row. It is converted whole: one value that cannot be
/// converted fails the row, and its place and type are told.
pub fn into_result_row(row: &Vec<NativeColumn>) -> (r: Result<ResultRow, ConversionFault>)
    ensures
        match r {
            Ok(entries) => row_convertible(native_row_view(row@)) && row_view(entries@)
                == converted_row(native_row_view(row@)),
            Err(fault) => fault.row == 0 && first_fault_in_row(
                native_row_view(row@),
                fault.column as int,
                fault.type_oid,
            ),
        },
{
    let ghost native = native_row_view(row@);
    let mut entries: Vec<ResultRowEntry> = Vec::new();
    let mut j: usize = 0;
    while j < row.len()
        invariant
            0 <= j <= row.len(),
            native == native_row_view(row@),
            entries@.len() == j,
            forall|k: int| 0 <= k < j ==> decoded(#[trigger] native[k].1) is Some,
            forall|k: int|
                0 <= k < j ==> (#[trigger] entries@[k])@ == (native[k].0, decoded(native[k].1)->0),
        decreases row.len() - j,
    {
        match from_native(&row[j].value) {
            Ok(value) => {
                entries.push(ResultRowEntry { column_name: row[j].name.clone(), value });
            },
            Err(fault) => {
                return Err(ConversionFault { row: 0, column: j, type_oid: fault.type_oid });
            },
        }
        j += 1;
    }
    Ok(entries)
}

/// Converts the rows of a result. The result is converted whole: one value
/// that cannot be converted fails all of it, no row is handed out, and the
/// place of the first such value is told.
pub fn into_result_rows(rows: &Vec<Vec<NativeColumn>>) -> (r: Result<Vec<ResultRow>, ConversionFault>)
    ensures
        match r {
            Ok(converted) => rows_convertible(native_rows_view(rows@)) && rows_view(converted@)
                == converted_rows(native_rows_view(rows@)),
            Err(fault) => {
                &&& 0 <= fault.row < rows.len()
                &&& rows_convertible(native_rows_view(rows@).take(fault.row as int))
                &&& first_fault_in_row(
                    native_rows_view(rows@)[fault.row as int],
                    fault.column as int,
                    fault.type_oid,
                )
            },
        },
{
    let ghost native = native_rows_view(rows@);
    let mut converted: Vec<ResultRow> = Vec::new();
    let mut i: usize = 0;
    while i < rows.len()
        invariant
            0 <= i <= rows.len(),
            native == native_rows_view(rows@),
            converted@.len() == i,
            forall|k: int| 0 <= k < i ==> row_convertible(#[trigger] native[k]),
            forall|k: int|
                0 <= k < i ==> row_view((#[trigger] converted@[k])@) == converted_row(native[k]),
        decreases rows.len() - i,
    {
        match into_result_row(&rows[i]) {
            Ok(entries) => {
                converted.push(entries);
            },
            Err(fault) => {
                return Err(
                    ConversionFault { row: i, column: fault.column, type_oid: fault.type_oid },
                );
            },
        }
        i += 1;
    }
    Ok(converted)
}

} // verus!
