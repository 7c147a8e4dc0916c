//! Reading an entity from a document: the fields that the entity is made
//! of, each coerced into its kind, in a fixed order.

use crate::binder::{bound_models, coerce, coerced, BoundModel, BoundValue};
use crate::document::{position_of, Document, FieldModel};
use crate::registry::{column_models, ColumnDescriptor, ColumnModel, Registry, RegistryModel};
use crate::sequences::{first_none, lemma_first_none_at, lemma_no_none, unwrapped};
use crate::stores::store::{ErrorModel, StoreError};
use vstd::prelude::*;

verus! {

/// What a field of an entity becomes as a parameter: a validation error
/// where the document does not hold the field, a coercion error where its
/// value is not of the kind of the field, and else the coerced value.
pub open spec fn entity_field(
    field: ColumnModel,
    fields: Seq<FieldModel>,
    registry: RegistryModel,
) -> Result<BoundModel, ErrorModel> {
    match position_of(fields, field.name) {
        Some(i) => match coerced(field.kind, fields[i].value, registry) {
            Some(parameter) => Ok(parameter),
            None => Err(ErrorModel::CoercionError(field.name)),
        },
        None => Err(ErrorModel::ValidationError(field.name)),
    }
}

/// The parameters that the fields of an entity become, in the order of
/// `shape`, where each of them is there.
pub open spec fn entity_fields(
    shape: Seq<ColumnModel>,
    fields: Seq<FieldModel>,
    registry: RegistryModel,
) -> Seq<Option<BoundModel>> {
    Seq::new(
        shape.len(),
        |i: int|
            match entity_field(shape[i], fields, registry) {
                Ok(parameter) => Some(parameter),
                Err(_) => None,
            },
    )
}

/// The outcome of reading an entity from a document: the parameters of its
/// fields in the order of `shape`, or the failure of the first field that
/// is absent or cannot be coerced. Fields that `shape` does not list are
/// passed over.
pub open spec fn entity_outcome(
    shape: Seq<ColumnModel>,
    fields: Seq<FieldModel>,
    registry: RegistryModel,
) -> Result<Seq<BoundModel>, ErrorModel> {
    match first_none(entity_fields(shape, fields, registry)) {
        Some(i) => Err(entity_field(shape[i], fields, registry)->Err_0),
        None => Ok(unwrapped(entity_fields(shape, fields, registry))),
    }
}

/// Reads the fields of an entity from `item`, in the order of `shape`.
pub fn entity_parameters(shape: &Vec<ColumnDescriptor>, item: &Document, registry: &Registry)
    -> (read: Result<Vec<BoundValue>, StoreError>)
    ensures
        match entity_outcome(column_models(shape@), item@, registry@) {
            Ok(models) => read matches Ok(parameters) && bound_models(parameters@) == models,
            Err(failure) => read matches Err(error) && error@ == failure,
        },
{
    let ghost columns = column_models(shape@);
    let ghost outcomes = entity_fields(columns, item@, registry@);
    let mut parameters: Vec<BoundValue> = Vec::new();
    let mut i: usize = 0;
    while i < shape.len()
        invariant
            0 <= i <= shape@.len(),
            columns == column_models(shape@),
            outcomes == entity_fields(columns, item@, registry@),
            parameters@.len() == i,
            forall|k: int| 0 <= k < i ==> (#[trigger] outcomes[k]) == Some(parameters@[k]@),
        decreases shape@.len() - i,
    {
        let field = &shape[i];
        assert(columns[i as int] == field@);
        let read = match item.get(&field.name) {
            Some(value) => coerce(field.kind, value, &field.name, registry),
            None => Err(StoreError::ValidationError(field.name.clone())),
        };
        match read {
            Ok(parameter) => {
                parameters.push(parameter);
            },
            Err(error) => {
                proof {
                    lemma_first_none_at(outcomes, i as int);
                }
                return Err(error);
            },
        }
        i = i + 1;
    }
    proof {
        lemma_no_none(outcomes);
        assert(bound_models(parameters@) =~= unwrapped(outcomes));
    }
    Ok(parameters)
}

} // verus!
