//! The dynamic builders: from a flat document to the text of a filter or of
//! an assignment with positional placeholders.
//!
//! Field names go into the text as they are, because the backend cannot take
//! an identifier as a parameter. A builder therefore accepts a name only if
//! the registry declares it.

use crate::document::{names_of, Document, FieldModel, FieldValue};
use crate::registry::{Registry, RegistryModel};
use crate::sql_text::{
    fragments, joined, placeholder_text, render_clause, render_placeholder, texts,
};
use crate::stores::store::{ErrorModel, StoreError};
use vstd::prelude::*;
use vstd::string::*;

verus! {

/// An equality filter over the fields of a document.
#[derive(Debug, PartialEq, Eq)]
pub struct Predicate {
    /// One fragment for each field, joined by `" AND "`.
    pub where_clause: String,
    /// The names of the fields, the one at position `i` belonging to the
    /// placeholder `i + 1`.
    pub fields: Vec<String>,
}

/// An assignment to the fields of a document on the row of one identifier.
#[derive(Debug, PartialEq, Eq)]
pub struct Assignment {
    /// One fragment for each field, joined by `", "`.
    pub set_clause: String,
    /// The filter that selects the row, with the placeholder that follows
    /// those of the fields.
    pub closing_predicate: String,
    /// The names of the fields, the one at position `i` belonging to the
    /// placeholder `i + 1`.
    pub fields: Vec<String>,
    /// The position of the placeholder of the identifier.
    pub id_index: u128,
    /// The identifier bound at that position.
    pub id: u128,
}

/// The separator of the fragments of a filter.
pub open spec fn and_separator() -> Seq<char> {
    seq![' ', 'A', 'N', 'D', ' ']
}

/// The separator of the fragments of an assignment.
pub open spec fn comma_separator() -> Seq<char> {
    seq![',', ' ']
}

/// Every entry of `fields` is called by a name that the registry declares.
pub open spec fn all_declared(fields: Seq<FieldModel>, registry: RegistryModel) -> bool {
    forall|i: int| 0 <= i < fields.len() ==> registry.declares(#[trigger] fields[i].name)
}

/// The documents that a builder accepts: flat objects with at least one
/// entry, all of whose names the registry declares.
pub open spec fn accepted(document: &Document, registry: RegistryModel) -> bool {
    &&& document.is_flat_object()
    &&& document@.len() > 0
    &&& all_declared(document@, registry)
}

/// The text of the filter over the fields called `names`.
pub open spec fn where_clause_text(names: Seq<Seq<char>>) -> Seq<char> {
    joined(fragments(names), and_separator())
}

/// The text of the assignment to the fields called `names`.
pub open spec fn set_clause_text(names: Seq<Seq<char>>) -> Seq<char> {
    joined(fragments(names), comma_separator())
}

/// The filter that selects the row of the identifier bound at position `n`.
pub open spec fn closing_predicate_text(n: nat) -> Seq<char> {
    "WHERE id = "@ + placeholder_text(n)
}

/// The names of the fields of an accepted document, in its order; `None` for
/// a document that the builders reject.
fn accepted_names(document: &Document, registry: &Registry) -> (names: Option<Vec<String>>)
    ensures
        names is Some <==> accepted(document, registry@),
        names matches Some(list) ==> texts(list@) == names_of(document@),
{
    if !document.object() || document.len() == 0 {
        return None;
    }
    let mut names: Vec<String> = Vec::new();
    let mut i: usize = 0;
    while i < document.len()
        invariant
            0 <= i <= document@.len(),
            names@.len() == i,
            forall|k: int| 0 <= k < i ==> names@[k]@ == document@[k].name,
            forall|k: int| 0 <= k < i ==> !(#[trigger] document@[k].value is Nested),
            forall|k: int| 0 <= k < i ==> registry@.declares(#[trigger] document@[k].name),
        decreases document@.len() - i,
    {
        let field = document.field(i);
        match field.value {
            FieldValue::Nested => {
                assert(document@[i as int].value is Nested);
                return None;
            },
            _ => {},
        }
        if !registry.declares(&field.name) {
            assert(!registry@.declares(document@[i as int].name));
            return None;
        }
        names.push(field.name.clone());
        i = i + 1;
    }
    assert(texts(names@) =~= names_of(document@));
    Some(names)
}

/// Builds the equality filter over the fields of `document`.
///
/// The filter has one fragment `<field> = $<n>` for each field, in the order
/// of the document and numbered from 1, joined by `" AND "`. A document that
/// is not a flat object, has no entries, or names a field that `registry`
/// does not declare is rejected as invalid input.
pub fn build_predicate(document: &Document, registry: &Registry) -> (built: Result<
    Predicate,
    StoreError,
>)
    ensures
        built is Ok <==> accepted(document, registry@),
        built matches Ok(predicate) ==> {
            &&& predicate.where_clause@ == where_clause_text(names_of(document@))
            &&& texts(predicate.fields@) == names_of(document@)
        },
        built matches Err(error) ==> error@ == ErrorModel::InvalidInput,
{
    match accepted_names(document, registry) {
        Some(fields) => {
            proof {
                reveal_strlit(" AND ");
                assert(" AND "@ =~= and_separator());
            }
            let where_clause = render_clause(&fields, " AND ");
            Ok(Predicate { where_clause, fields })
        },
        None => Err(StoreError::InvalidInput),
    }
}

/// Builds the assignment of the fields of `document` to the row of `id`.
///
/// The assignment has one fragment `<field> = $<n>` for each field, in the
/// order of the document and numbered from 1, joined by `", "`, and a
/// closing filter `WHERE id = $<n+1>` whose placeholder, the last one, is
/// bound to `id`. The same documents are rejected as by [`build_predicate`].
pub fn build_assignment(document: &Document, registry: &Registry, id: u128) -> (built: Result<
    Assignment,
    StoreError,
>)
    ensures
        built is Ok <==> accepted(document, registry@),
        built matches Ok(assignment) ==> {
            &&& assignment.set_clause@ == set_clause_text(names_of(document@))
            &&& assignment.closing_predicate@ == closing_predicate_text(document@.len() + 1)
            &&& texts(assignment.fields@) == names_of(document@)
            &&& assignment.id_index == document@.len() + 1
            &&& assignment.id == id
        },
        built matches Err(error) ==> error@ == ErrorModel::InvalidInput,
{
    match accepted_names(document, registry) {
        Some(fields) => {
            proof {
                reveal_strlit(", ");
                assert(", "@ =~= comma_separator());
            }
            let set_clause = render_clause(&fields, ", ");
            let id_index: u128 = fields.len() as u128 + 1;
            let mut closing_predicate = String::from_str("WHERE id = ");
            let placeholder = render_placeholder(id_index);
            closing_predicate.append(placeholder.as_str());
            assert(fields@.len() == document@.len()) by {
                assert(texts(fields@).len() == names_of(document@).len());
            }
            Ok(Assignment { set_clause, closing_predicate, fields, id_index, id })
        },
        None => Err(StoreError::InvalidInput),
    }
}

} // verus!
