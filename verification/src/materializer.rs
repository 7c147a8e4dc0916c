//! The type-directed row materializer: from a row of a result, column by
//! column, to a document.
//!
//! The row decides which fields exist. The type that the backend reports for
//! a column decides its semantic kind, and with it the shape of the value in
//! the document: identifiers, labels and timestamps become strings, booleans
//! stay booleans, and everything else is text.

use crate::binder::{coerced, trim_quotes, BoundModel, BoundValue};
use crate::codec::{format_timestamp, format_uuid, hyphenated_text, timestamp_text};
use crate::document::{with_entry, Document, FieldModel, FieldValue, ValueModel};
use crate::registry::{ColumnKind, Registry, RegistryModel};
use crate::sequences::{first_none, lemma_first_none_at, lemma_no_none, unwrapped};
use crate::stores::store::{ErrorModel, StoreError};
use vstd::prelude::*;

verus! {

/// One column of a row of a result.
#[derive(Debug, PartialEq, Eq)]
pub struct Cell {
    /// The name of the column.
    pub name: String,
    /// The name of the type that the backend reports for the column.
    pub reported_type: String,
    /// What the column holds, read as the type that the backend reports, or
    /// `None` where it cannot be read as that type.
    pub value: Option<BoundValue>,
}

/// The mathematical model of a [`Cell`].
pub struct CellModel {
    pub name: Seq<char>,
    pub reported_type: Seq<char>,
    pub value: Option<BoundModel>,
}

impl View for Cell {
    type V = CellModel;

    open spec fn view(&self) -> CellModel {
        CellModel {
            name: self.name@,
            reported_type: self.reported_type@,
            value: match self.value {
                Some(value) => Some(value@),
                None => None,
            },
        }
    }
}

/// What the cells of a row hold.
pub open spec fn cell_models(row: Seq<Cell>) -> Seq<CellModel> {
    Seq::new(row.len(), |i: int| row[i]@)
}

/// The value that a column of the given kind gets in the document, or
/// `None` where what the column holds is not of that kind: an identifier in
/// its hyphenated form, a label of the registry as it is, a timestamp in the
/// form that `chrono` writes, a boolean as a boolean, and text as it is. No
/// kind of column holds a whole number.
pub open spec fn decoded(kind: ColumnKind, value: Option<BoundModel>, registry: RegistryModel)
    -> Option<ValueModel> {
    match value {
        Some(BoundModel::Identifier(id)) => if kind == ColumnKind::Identifier {
            Some(ValueModel::Text(hyphenated_text(id)))
        } else {
            None
        },
        Some(BoundModel::Label(label)) => if kind == ColumnKind::Enumeration && registry.has_label(
            label,
        ) {
            Some(ValueModel::Text(label))
        } else {
            None
        },
        Some(BoundModel::Timestamp(seconds, nanos)) => if kind == ColumnKind::Timestamp {
            match timestamp_text(seconds, nanos) {
                Some(text) => Some(ValueModel::Text(text)),
                None => None,
            }
        } else {
            None
        },
        Some(BoundModel::Boolean(b)) => if kind == ColumnKind::Boolean {
            Some(ValueModel::Bool(b))
        } else {
            None
        },
        Some(BoundModel::Text(text)) => if kind == ColumnKind::Text {
            Some(ValueModel::Text(text))
        } else {
            None
        },
        Some(BoundModel::Integer(_)) => None,
        None => None,
    }
}

/// The value that a cell gets in the document.
pub open spec fn decoded_cell(cell: CellModel, registry: RegistryModel) -> Option<ValueModel> {
    decoded(registry.kind_for_type(cell.reported_type), cell.value, registry)
}

/// The value that each cell of the row gets in the document, in order.
pub open spec fn decoded_cells(row: Seq<CellModel>, registry: RegistryModel) -> Seq<
    Option<ValueModel>,
> {
    Seq::new(row.len(), |i: int| decoded_cell(row[i], registry))
}

/// Every cell of the row can be decoded.
pub open spec fn all_decoded(row: Seq<CellModel>, registry: RegistryModel) -> bool {
    first_none(decoded_cells(row, registry)) is None
}

/// The entries of the document that a row becomes: each cell, in the order
/// of the row, sets the entry of its name to its decoded value.
pub open spec fn materialized(row: Seq<CellModel>, registry: RegistryModel) -> Seq<FieldModel>
    recommends
        all_decoded(row, registry),
    decreases row.len(),
{
    if row.len() == 0 {
        Seq::empty()
    } else {
        with_entry(
            materialized(row.drop_last(), registry),
            row.last().name,
            decoded_cell(row.last(), registry).unwrap(),
        )
    }
}

/// The outcome of turning a row into a document: its entries, or a decode
/// error that names the first column that cannot be decoded.
pub open spec fn row_outcome(row: Seq<CellModel>, registry: RegistryModel) -> Result<
    Seq<FieldModel>,
    ErrorModel,
> {
    match first_none(decoded_cells(row, registry)) {
        Some(i) => Err(ErrorModel::DecodeError(row[i].name)),
        None => Ok(materialized(row, registry)),
    }
}

/// Whether a cell comes back from its document value: coerced into the kind
/// of its column, the decoded value is what the cell holds. Free text comes
/// back without the double quotes that enclose it.
pub open spec fn comes_back(cell: CellModel, registry: RegistryModel) -> bool {
    let kind = registry.kind_for_type(cell.reported_type);
    match decoded_cell(cell, registry) {
        Some(value) => match cell.value {
            Some(BoundModel::Text(text)) => coerced(kind, value, registry) == Some(
                BoundModel::Text(trim_quotes(text)),
            ),
            _ => coerced(kind, value, registry) == cell.value,
        },
        None => false,
    }
}

/// The document value of a timestamp column called `column` from what the
/// writer of timestamps made of it: the text, or a decode error where the
/// writer has no date and time for what the column holds.
pub fn timestamp_value_from(rendered: Option<String>, column: &String) -> (value: Result<
    FieldValue,
    StoreError,
>)
    ensures
        match rendered {
            Some(text) => value matches Ok(v) && v@ == ValueModel::Text(text@),
            None => value matches Err(error) && error@ == ErrorModel::DecodeError(column@),
        },
{
    match rendered {
        Some(text) => Ok(FieldValue::Text(text)),
        None => Err(StoreError::DecodeError(column.clone())),
    }
}

/// Decodes one cell by the kind that the registry gives its reported type.
///
/// A cell that is decoded comes back from its value (see [`comes_back`]).
pub fn decode(cell: &Cell, registry: &Registry) -> (value: Result<FieldValue, StoreError>)
    ensures
        match decoded_cell(cell@, registry@) {
            Some(model) => value matches Ok(v) && v@ == model && comes_back(cell@, registry@),
            None => value matches Err(error) && error@ == ErrorModel::DecodeError(cell@.name),
        },
{
    let kind = registry.kind_for_type(&cell.reported_type);
    match &cell.value {
        Some(BoundValue::Identifier(id)) => match kind {
            ColumnKind::Identifier => Ok(FieldValue::Text(format_uuid(*id))),
            _ => Err(StoreError::DecodeError(cell.name.clone())),
        },
        Some(BoundValue::Label(label)) => match kind {
            ColumnKind::Enumeration => {
                if registry.has_label(label) {
                    Ok(FieldValue::Text(label.clone()))
                } else {
                    Err(StoreError::DecodeError(cell.name.clone()))
                }
            },
            _ => Err(StoreError::DecodeError(cell.name.clone())),
        },
        Some(BoundValue::Timestamp(seconds, nanos)) => match kind {
            ColumnKind::Timestamp => timestamp_value_from(
                format_timestamp(*seconds, *nanos),
                &cell.name,
            ),
            _ => Err(StoreError::DecodeError(cell.name.clone())),
        },
        Some(BoundValue::Boolean(b)) => match kind {
            ColumnKind::Boolean => Ok(FieldValue::Bool(*b)),
            _ => Err(StoreError::DecodeError(cell.name.clone())),
        },
        Some(BoundValue::Text(text)) => match kind {
            ColumnKind::Text => Ok(FieldValue::Text(text.clone())),
            _ => Err(StoreError::DecodeError(cell.name.clone())),
        },
        _ => Err(StoreError::DecodeError(cell.name.clone())),
    }
}

/// Turns a row of a result into a document.
///
/// Each cell, in the order of the row, sets the field of its name to its
/// value, decoded by the kind that the registry gives the reported type of
/// the column. The conversion fails at the first cell whose value is not of
/// that kind, with a decode error that names the column.
///
/// Every cell of a row that was converted comes back from the document:
/// coerced into the kind of its column, its document value is again what the
/// cell holds, but for the double quotes that enclose free text.
pub fn row_to_document(row: &Vec<Cell>, registry: &Registry) -> (document: Result<
    Document,
    StoreError,
>)
    ensures
        match row_outcome(cell_models(row@), registry@) {
            Ok(entries) => document matches Ok(doc) && doc.wf() && doc.is_object() && doc@
                == entries,
            Err(failure) => document matches Err(error) && error@ == failure,
        },
        document is Ok ==> forall|i: int|
            0 <= i < row@.len() ==> comes_back(#[trigger] cell_models(row@)[i], registry@),
{
    let ghost cells = cell_models(row@);
    let ghost outcomes = decoded_cells(cells, registry@);
    let mut doc = Document::new();
    let mut i: usize = 0;
    assert(cells.take(0) =~= Seq::<CellModel>::empty());
    while i < row.len()
        invariant
            0 <= i <= row@.len(),
            cells == cell_models(row@),
            outcomes == decoded_cells(cells, registry@),
            doc.wf(),
            doc.is_object(),
            doc@ == materialized(cells.take(i as int), registry@),
            forall|k: int| 0 <= k < i ==> (#[trigger] outcomes[k]) is Some,
            forall|k: int| 0 <= k < i ==> comes_back(#[trigger] cells[k], registry@),
        decreases row@.len() - i,
    {
        let cell = &row[i];
        assert(cells[i as int] == cell@);
        match decode(cell, registry) {
            Ok(value) => {
                proof {
                    let next = cells.take(i + 1);
                    assert(next.drop_last() =~= cells.take(i as int));
                    assert(next.last() == cells[i as int]);
                    assert(outcomes[i as int] is Some);
                }
                doc.insert(cell.name.clone(), value);
            },
            Err(error) => {
                proof {
                    lemma_first_none_at(outcomes, i as int);
                }
                return Err(error);
            },
        }
        i = i + 1;
    }
    proof {
        assert(cells.take(row@.len() as int) =~= cells);
        lemma_no_none(outcomes);
    }
    Ok(doc)
}

/// What each row of a result becomes: its entries, or `None` where one of
/// its cells cannot be decoded.
pub open spec fn decoded_rows(rows: Seq<Seq<CellModel>>, registry: RegistryModel) -> Seq<
    Option<Seq<FieldModel>>,
> {
    Seq::new(
        rows.len(),
        |i: int|
            match row_outcome(rows[i], registry) {
                Ok(entries) => Some(entries),
                Err(_) => None,
            },
    )
}

/// The outcome of turning the rows of a result into documents: the entries
/// of one document for each row, in the order of the rows, or the failure of
/// the first row that cannot be converted.
pub open spec fn rows_outcome(rows: Seq<Seq<CellModel>>, registry: RegistryModel) -> Result<
    Seq<Seq<FieldModel>>,
    ErrorModel,
> {
    match first_none(decoded_rows(rows, registry)) {
        Some(i) => Err(row_outcome(rows[i], registry)->Err_0),
        None => Ok(unwrapped(decoded_rows(rows, registry))),
    }
}

/// The cells of each of `rows`.
pub open spec fn row_models(rows: Seq<Vec<Cell>>) -> Seq<Seq<CellModel>> {
    Seq::new(rows.len(), |i: int| cell_models(rows[i]@))
}

/// The entries of each of `documents`.
pub open spec fn document_models(documents: Seq<Document>) -> Seq<Seq<FieldModel>> {
    Seq::new(documents.len(), |i: int| documents[i]@)
}

/// Turns the rows of a result into documents, one for each row and in the
/// order of the rows. A result without rows gives no documents, which is no
/// failure. The conversion fails at the first row that cannot be converted.
pub fn rows_to_documents(rows: &Vec<Vec<Cell>>, registry: &Registry) -> (documents: Result<
    Vec<Document>,
    StoreError,
>)
    ensures
        match rows_outcome(row_models(rows@), registry@) {
            Ok(entries) => documents matches Ok(list) && document_models(list@) == entries
                && forall|i: int| 0 <= i < list@.len() ==> (#[trigger] list@[i]).is_object(),
            Err(failure) => documents matches Err(error) && error@ == failure,
        },
{
    let ghost models = row_models(rows@);
    let ghost outcomes = decoded_rows(models, registry@);
    let mut documents: Vec<Document> = Vec::new();
    let mut i: usize = 0;
    while i < rows.len()
        invariant
            0 <= i <= rows@.len(),
            models == row_models(rows@),
            outcomes == decoded_rows(models, registry@),
            documents@.len() == i,
            forall|k: int| 0 <= k < i ==> (#[trigger] outcomes[k]) == Some(documents@[k]@),
            forall|k: int| 0 <= k < i ==> (#[trigger] documents@[k]).is_object(),
        decreases rows@.len() - i,
    {
        assert(models[i as int] == cell_models(rows@[i as int]@));
        match row_to_document(&rows[i], registry) {
            Ok(document) => {
                documents.push(document);
            },
            Err(error) => {
                proof {
                    lemma_first_none_at(outcomes, i as int);
                }
                return Err(error);
            },
        }
        i = i + 1;
    }
    proof {
        lemma_no_none(outcomes);
        assert(document_models(documents@) =~= unwrapped(outcomes));
    }
    Ok(documents)
}

/// The number of rows that the backend counted: nothing counts as zero, and
/// so does a count below zero, which no backend gives.
pub open spec fn counted_rows(counted: Option<i64>) -> u64 {
    match counted {
        Some(n) => if n >= 0 {
            n as u64
        } else {
            0
        },
        None => 0,
    }
}

/// The number of rows that the backend counted.
pub fn row_count(counted: Option<i64>) -> (n: u64)
    ensures
        n == counted_rows(counted),
{
    match counted {
        Some(n) => if n >= 0 {
            n as u64
        } else {
            0
        },
        None => 0,
    }
}

/// The one row that a lookup by a unique field expects: a lookup that finds
/// none has not found what it looked for.
pub fn found_or_missing(found: Option<Document>) -> (row: Result<Document, StoreError>)
    ensures
        match found {
            Some(document) => row == Ok::<Document, StoreError>(document),
            None => row matches Err(error) && error@ == ErrorModel::NotFound,
        },
{
    match found {
        Some(document) => Ok(document),
        None => Err(StoreError::NotFound),
    }
}

} // verus!
