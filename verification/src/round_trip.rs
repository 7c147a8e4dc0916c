//! What comes back: a row that is turned into a document can be read from
//! the document again.
//!
//! The conversion of a single cell and back rests on what the `uuid` and
//! `chrono` crates promise of their textual forms, and is part of the
//! contract of the row materializer. What is proved here is that the cells
//! of a row do not get into each other's way.

use crate::binder::{bind_outcome, bound_field, bound_fields, trim_quotes, BoundModel};
use crate::document::{lemma_find_from, names_of, position_of, FieldModel};
use crate::entity::{entity_fields, entity_outcome};
use crate::materializer::{
    all_decoded, comes_back, decoded_cell, decoded_cells, materialized, CellModel,
};
use crate::registry::{ColumnModel, RegistryModel};
use crate::sequences::{lemma_first_none_from, lemma_no_none, unwrapped};
use crate::stores::store::ErrorModel;
use vstd::prelude::*;

verus! {

/// The names of the cells of a row are distinct.
pub open spec fn distinct_cells(row: Seq<CellModel>) -> bool {
    forall|i: int, j: int| 0 <= i < j < row.len() ==> row[i].name != row[j].name
}

/// The row fits the registry: the kind that the reported type of each column
/// has is the kind that the registry gives the name of the column.
pub open spec fn fits(row: Seq<CellModel>, registry: RegistryModel) -> bool {
    forall|i: int|
        0 <= i < row.len() ==> registry.kind_for_type((#[trigger] row[i]).reported_type)
            == registry.kind_of(row[i].name)
}

/// A row with distinct column names becomes a document with one entry for
/// each cell, in the order of the row.
pub proof fn lemma_materialized_entries(row: Seq<CellModel>, registry: RegistryModel)
    requires
        distinct_cells(row),
        all_decoded(row, registry),
    ensures
        materialized(row, registry).len() == row.len(),
        forall|i: int|
            0 <= i < row.len() ==> (#[trigger] materialized(row, registry)[i]) == (FieldModel {
                name: row[i].name,
                value: decoded_cell(row[i], registry).unwrap(),
            }),
        forall|i: int|
            0 <= i < row.len() ==> position_of(
                materialized(row, registry),
                (#[trigger] row[i]).name,
            ) == Some(i),
    decreases row.len(),
{
    if row.len() > 0 {
        let front = row.drop_last();
        let before = materialized(front, registry);
        lemma_first_none_from(decoded_cells(row, registry), 0);
        assert forall|i: int| 0 <= i < front.len() implies (#[trigger] decoded_cells(
            front,
            registry,
        )[i]) is Some by {
            assert(decoded_cells(row, registry)[i] is Some);
            assert(front[i] == row[i]);
        }
        lemma_no_none(decoded_cells(front, registry));
        lemma_materialized_entries(front, registry);
        lemma_find_from(before, row.last().name, 0);
        assert(position_of(before, row.last().name) is None) by {
            if position_of(before, row.last().name) is Some {
                let at = position_of(before, row.last().name).unwrap();
                assert(before[at].name == front[at].name);
                assert(row[at].name == row[row.len() - 1].name);
            }
        }
        let after = materialized(row, registry);
        assert(after == before.push(
            FieldModel {
                name: row.last().name,
                value: decoded_cell(row.last(), registry).unwrap(),
            },
        ));
        assert forall|i: int| 0 <= i < row.len() implies position_of(
            after,
            (#[trigger] row[i]).name,
        ) == Some(i) by {
            lemma_find_from(after, row[i].name, 0);
            let at = position_of(after, row[i].name).unwrap();
            assert(after[i].name == row[i].name);
            assert(after[at].name == row[at].name);
        }
    }
}

/// A row that fits the registry, once turned into a document, binds back to
/// what it held: the field of each cell that comes back is coerced, under
/// the kind that the registry gives its name, into the value of the cell.
/// Free text is bound without the double quotes that enclose it.
pub proof fn lemma_round_trip(row: Seq<CellModel>, registry: RegistryModel, i: int)
    requires
        distinct_cells(row),
        fits(row, registry),
        all_decoded(row, registry),
        0 <= i < row.len(),
        comes_back(row[i], registry),
    ensures
        match row[i].value {
            Some(BoundModel::Text(text)) => bound_field(
                row[i].name,
                materialized(row, registry),
                registry,
            ) == Some(BoundModel::Text(trim_quotes(text))),
            _ => bound_field(row[i].name, materialized(row, registry), registry) == row[i].value,
        },
{
    lemma_materialized_entries(row, registry);
    let fields = materialized(row, registry);
    assert(position_of(fields, row[i].name) == Some(i));
    assert(fields[i].value == decoded_cell(row[i], registry).unwrap());
    assert(registry.kind_for_type(row[i].reported_type) == registry.kind_of(row[i].name));
}

/// Whether a value is one that a document gives back unchanged: every
/// identifier, label, timestamp and boolean, and text that no double quotes
/// enclose.
pub open spec fn plain(value: BoundModel) -> bool {
    match value {
        BoundModel::Text(text) => trim_quotes(text) == text,
        BoundModel::Integer(_) => false,
        _ => true,
    }
}

/// The columns of a row, each with the kind that the registry gives its
/// name.
pub open spec fn columns_of(row: Seq<CellModel>, registry: RegistryModel) -> Seq<ColumnModel> {
    Seq::new(
        row.len(),
        |i: int| ColumnModel { name: row[i].name, kind: registry.kind_of(row[i].name) },
    )
}

/// What the cells of a row hold, where each of them holds something.
pub open spec fn values_of(row: Seq<CellModel>) -> Seq<BoundModel> {
    Seq::new(row.len(), |i: int| row[i].value.unwrap())
}

/// A row that is turned into a document and read back column by column is
/// the same row: for a row with distinct column names that fits the
/// registry, whose cells all come back and hold plain values, reading the
/// columns of the row from its document gives what the cells hold.
pub proof fn lemma_row_reads_back(row: Seq<CellModel>, registry: RegistryModel)
    requires
        distinct_cells(row),
        fits(row, registry),
        all_decoded(row, registry),
        forall|i: int| 0 <= i < row.len() ==> comes_back(#[trigger] row[i], registry),
        forall|i: int|
            0 <= i < row.len() ==> (#[trigger] row[i]).value is Some && plain(
                row[i].value.unwrap(),
            ),
    ensures
        entity_outcome(columns_of(row, registry), materialized(row, registry), registry) == Ok::<
            Seq<BoundModel>,
            ErrorModel,
        >(values_of(row)),
{
    let columns = columns_of(row, registry);
    let fields = materialized(row, registry);
    let read = entity_fields(columns, fields, registry);
    lemma_materialized_entries(row, registry);
    assert forall|i: int| 0 <= i < row.len() implies (#[trigger] read[i]) == row[i].value by {
        lemma_round_trip(row, registry, i);
        assert(position_of(fields, row[i].name) == Some(i));
        assert(columns[i].name == row[i].name);
    }
    lemma_no_none(read);
    assert(unwrapped(read) =~= values_of(row));
}

/// A row that is turned into a document and bound field by field is the
/// same row: for a row with distinct column names that fits the registry,
/// whose cells all come back and hold plain values, binding every field of
/// its document, in the order of the document, gives what the cells hold.
pub proof fn lemma_row_binds_back(row: Seq<CellModel>, registry: RegistryModel)
    requires
        distinct_cells(row),
        fits(row, registry),
        all_decoded(row, registry),
        forall|i: int| 0 <= i < row.len() ==> comes_back(#[trigger] row[i], registry),
        forall|i: int|
            0 <= i < row.len() ==> (#[trigger] row[i]).value is Some && plain(
                row[i].value.unwrap(),
            ),
    ensures
        bind_outcome(
            names_of(materialized(row, registry)),
            materialized(row, registry),
            registry,
        ) == Ok::<Seq<BoundModel>, ErrorModel>(values_of(row)),
{
    let fields = materialized(row, registry);
    let bound = bound_fields(names_of(fields), fields, registry);
    lemma_materialized_entries(row, registry);
    assert forall|i: int| 0 <= i < row.len() implies (#[trigger] bound[i]) == row[i].value by {
        lemma_round_trip(row, registry, i);
        assert(fields[i].name == row[i].name);
    }
    lemma_no_none(bound);
    assert(unwrapped(bound) =~= values_of(row));
}

} // verus!
