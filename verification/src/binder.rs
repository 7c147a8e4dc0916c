//! The type-directed binder: from the values of a document to the typed
//! parameters of a statement.

use crate::codec::{parse_timestamp, parse_uuid, timestamp_parse, uuid_parse};
use crate::document::{position_of, Document, FieldModel, FieldValue, ValueModel};
use crate::registry::{ColumnKind, Registry, RegistryModel};
use crate::sequences::{first_none, lemma_first_none_at, lemma_no_none, unwrapped};
use crate::sql_text::texts;
use crate::stores::store::{ErrorModel, StoreError};
use vstd::prelude::*;
use vstd::string::*;

verus! {

/// A parameter of a statement, coerced into the type of its column.
#[derive(Debug, PartialEq, Eq)]
pub enum BoundValue {
    /// A UUID, as the number that its bytes spell.
    Identifier(u128),
    /// A label of the entity's enumeration.
    Label(String),
    /// A date and time without a time zone, as seconds since 1970 and the
    /// nanoseconds into the second.
    Timestamp(i64, u32),
    /// A boolean.
    Boolean(bool),
    /// Free text.
    Text(String),
    /// A whole number: a limit or an offset.
    Integer(i64),
}

/// The mathematical model of a [`BoundValue`].
pub enum BoundModel {
    Identifier(u128),
    Label(Seq<char>),
    Timestamp(i64, u32),
    Boolean(bool),
    Text(Seq<char>),
    Integer(i64),
}

impl View for BoundValue {
    type V = BoundModel;

    open spec fn view(&self) -> BoundModel {
        match *self {
            BoundValue::Identifier(id) => BoundModel::Identifier(id),
            BoundValue::Label(label) => BoundModel::Label(label@),
            BoundValue::Timestamp(seconds, nanos) => BoundModel::Timestamp(seconds, nanos),
            BoundValue::Boolean(b) => BoundModel::Boolean(b),
            BoundValue::Text(text) => BoundModel::Text(text@),
            BoundValue::Integer(n) => BoundModel::Integer(n),
        }
    }
}

/// What the parameters `values` hold.
pub open spec fn bound_models(values: Seq<BoundValue>) -> Seq<BoundModel> {
    Seq::new(values.len(), |i: int| values[i]@)
}

/// `text` without the double quotes at its start.
pub open spec fn without_leading_quotes(text: Seq<char>) -> Seq<char>
    decreases text.len(),
{
    if text.len() > 0 && text[0] == '"' {
        without_leading_quotes(text.drop_first())
    } else {
        text
    }
}

/// `text` without the double quotes at its end.
pub open spec fn without_trailing_quotes(text: Seq<char>) -> Seq<char>
    decreases text.len(),
{
    if text.len() > 0 && text.last() == '"' {
        without_trailing_quotes(text.drop_last())
    } else {
        text
    }
}

/// `text` without the double quotes that enclose it: all of those at its
/// start and all of those at its end.
pub open spec fn trim_quotes(text: Seq<char>) -> Seq<char> {
    without_trailing_quotes(without_leading_quotes(text))
}

/// The parameter that a value of a document becomes for a column of the
/// given kind, or `None` where the value cannot be coerced into that kind.
///
/// An identifier and a timestamp are read from a string by the parsers of
/// the `uuid` and `chrono` crates. A label is a string that is one of the
/// labels of the registry. A boolean is a boolean literal. Free text is a
/// string, taken without the double quotes that enclose it.
pub open spec fn coerced(kind: ColumnKind, value: ValueModel, registry: RegistryModel) -> Option<
    BoundModel,
> {
    match value {
        ValueModel::Text(text) => match kind {
            ColumnKind::Identifier => match uuid_parse(text) {
                Some(id) => Some(BoundModel::Identifier(id)),
                None => None,
            },
            ColumnKind::Enumeration => if registry.has_label(text) {
                Some(BoundModel::Label(text))
            } else {
                None
            },
            ColumnKind::Timestamp => match timestamp_parse(text) {
                Some(at) => Some(BoundModel::Timestamp(at.0, at.1)),
                None => None,
            },
            ColumnKind::Boolean => None,
            ColumnKind::Text => Some(BoundModel::Text(trim_quotes(text))),
        },
        ValueModel::Bool(b) => match kind {
            ColumnKind::Boolean => Some(BoundModel::Boolean(b)),
            _ => None,
        },
        _ => None,
    }
}

/// The parameter that the field called `name` of a document becomes, or
/// `None` where the document has no such field or its value cannot be
/// coerced into the kind that the registry gives the name.
pub open spec fn bound_field(name: Seq<char>, fields: Seq<FieldModel>, registry: RegistryModel)
    -> Option<BoundModel> {
    match position_of(fields, name) {
        Some(i) => coerced(registry.kind_of(name), fields[i].value, registry),
        None => None,
    }
}

/// What each of `names` becomes, in order.
pub open spec fn bound_fields(
    names: Seq<Seq<char>>,
    fields: Seq<FieldModel>,
    registry: RegistryModel,
) -> Seq<Option<BoundModel>> {
    Seq::new(names.len(), |i: int| bound_field(names[i], fields, registry))
}

/// The outcome of binding the fields called `names`: the parameters, in the
/// order of the names, or a coercion error that names the first field that
/// cannot be bound.
pub open spec fn bind_outcome(
    names: Seq<Seq<char>>,
    fields: Seq<FieldModel>,
    registry: RegistryModel,
) -> Result<Seq<BoundModel>, ErrorModel> {
    match first_none(bound_fields(names, fields, registry)) {
        Some(i) => Err(ErrorModel::CoercionError(names[i])),
        None => Ok(unwrapped(bound_fields(names, fields, registry))),
    }
}

proof fn lemma_skip_leading_quote(text: Seq<char>, start: int)
    requires
        0 <= start < text.len(),
        text[start] == '"',
    ensures
        without_leading_quotes(text.subrange(start, text.len() as int)) == without_leading_quotes(
            text.subrange(start + 1, text.len() as int),
        ),
{
    let rest = text.subrange(start, text.len() as int);
    assert(rest.drop_first() =~= text.subrange(start + 1, text.len() as int));
}

proof fn lemma_skip_trailing_quote(text: Seq<char>, start: int, end: int)
    requires
        0 <= start < end <= text.len(),
        text[end - 1] == '"',
    ensures
        without_trailing_quotes(text.subrange(start, end)) == without_trailing_quotes(
            text.subrange(start, end - 1),
        ),
{
    let rest = text.subrange(start, end);
    assert(rest.drop_last() =~= text.subrange(start, end - 1));
}

/// Takes the double quotes that enclose `text` away.
pub fn strip_quotes(text: &String) -> (stripped: String)
    ensures
        stripped@ == trim_quotes(text@),
{
    let source = text.as_str();
    let len = source.unicode_len();
    let mut start: usize = 0;
    assert(text@.subrange(0, len as int) =~= text@);
    while start < len && source.get_char(start) == '"'
        invariant
            0 <= start <= len,
            len == text@.len(),
            source@ == text@,
            without_leading_quotes(text@) == without_leading_quotes(
                text@.subrange(start as int, len as int),
            ),
        decreases len - start,
    {
        proof {
            lemma_skip_leading_quote(text@, start as int);
        }
        start = start + 1;
    }
    let mut end: usize = len;
    assert(without_leading_quotes(text@) == text@.subrange(start as int, len as int));
    while end > start && source.get_char(end - 1) == '"'
        invariant
            0 <= start <= end <= len,
            len == text@.len(),
            source@ == text@,
            trim_quotes(text@) == without_trailing_quotes(text@.subrange(start as int, end as int)),
        decreases end - start,
    {
        proof {
            lemma_skip_trailing_quote(text@, start as int, end as int);
        }
        end = end - 1;
    }
    String::from_str(source.substring_char(start, end))
}

/// The parameter of an identifier column from what the parser of
/// identifiers made of the value of `field`.
pub fn identifier_from(parsed: Option<u128>, field: &String) -> (bound: Result<
    BoundValue,
    StoreError,
>)
    ensures
        match parsed {
            Some(id) => bound matches Ok(value) && value@ == BoundModel::Identifier(id),
            None => bound matches Err(error) && error@ == ErrorModel::CoercionError(field@),
        },
{
    match parsed {
        Some(id) => Ok(BoundValue::Identifier(id)),
        None => Err(StoreError::CoercionError(field.clone())),
    }
}

/// The parameter of a timestamp column from what the parser of timestamps
/// made of the value of `field`.
pub fn timestamp_from(parsed: Option<(i64, u32)>, field: &String) -> (bound: Result<
    BoundValue,
    StoreError,
>)
    ensures
        match parsed {
            Some(at) => bound matches Ok(value) && value@ == BoundModel::Timestamp(at.0, at.1),
            None => bound matches Err(error) && error@ == ErrorModel::CoercionError(field@),
        },
{
    match parsed {
        Some(at) => Ok(BoundValue::Timestamp(at.0, at.1)),
        None => Err(StoreError::CoercionError(field.clone())),
    }
}

/// Coerces the value of the field called `field` into the parameter of a
/// column of the given kind.
pub fn coerce(kind: ColumnKind, value: &FieldValue, field: &String, registry: &Registry) -> (bound:
    Result<BoundValue, StoreError>)
    ensures
        match coerced(kind, value@, registry@) {
            Some(model) => bound matches Ok(parameter) && parameter@ == model,
            None => bound matches Err(error) && error@ == ErrorModel::CoercionError(field@),
        },
{
    match value {
        FieldValue::Text(text) => match kind {
            ColumnKind::Identifier => identifier_from(parse_uuid(text.as_str()), field),
            ColumnKind::Enumeration => {
                if registry.has_label(text) {
                    Ok(BoundValue::Label(text.clone()))
                } else {
                    Err(StoreError::CoercionError(field.clone()))
                }
            },
            ColumnKind::Timestamp => timestamp_from(parse_timestamp(text.as_str()), field),
            ColumnKind::Boolean => Err(StoreError::CoercionError(field.clone())),
            ColumnKind::Text => Ok(BoundValue::Text(strip_quotes(text))),
        },
        FieldValue::Bool(b) => match kind {
            ColumnKind::Boolean => Ok(BoundValue::Boolean(*b)),
            _ => Err(StoreError::CoercionError(field.clone())),
        },
        _ => Err(StoreError::CoercionError(field.clone())),
    }
}

/// Binds the fields called `ordered_fields` of `document`, in that order.
///
/// The parameter at position `i` is the value of the field
/// `ordered_fields[i]`, coerced into the kind that `registry` gives that
/// name. Binding fails at the first field that the document does not hold or
/// whose value cannot be coerced, with a coercion error that names the field.
pub fn bind(ordered_fields: &Vec<String>, document: &Document, registry: &Registry) -> (bound:
    Result<Vec<BoundValue>, StoreError>)
    ensures
        match bind_outcome(texts(ordered_fields@), document@, registry@) {
            Ok(models) => bound matches Ok(parameters) && bound_models(parameters@) == models,
            Err(failure) => bound matches Err(error) && error@ == failure,
        },
{
    let ghost names = texts(ordered_fields@);
    let ghost outcomes = bound_fields(names, document@, registry@);
    let mut parameters: Vec<BoundValue> = Vec::new();
    let mut i: usize = 0;
    while i < ordered_fields.len()
        invariant
            0 <= i <= ordered_fields@.len(),
            names == texts(ordered_fields@),
            outcomes == bound_fields(names, document@, registry@),
            parameters@.len() == i,
            forall|k: int| 0 <= k < i ==> (#[trigger] outcomes[k]) == Some(parameters@[k]@),
        decreases ordered_fields@.len() - i,
    {
        let name = &ordered_fields[i];
        assert(names[i as int] == name@);
        let kind = registry.kind_of(name);
        let coerced_value = match document.get(name) {
            Some(value) => coerce(kind, value, name, registry),
            None => Err(StoreError::CoercionError(name.clone())),
        };
        match coerced_value {
            Ok(parameter) => {
                parameters.push(parameter);
            },
            Err(error) => {
                proof {
                    lemma_first_none_at(outcomes, i as int);
                }
                return Err(error);
            },
        }
        i = i + 1;
    }
    proof {
        lemma_no_none(outcomes);
        assert(bound_models(parameters@) =~= unwrapped(outcomes));
    }
    Ok(parameters)
}

} // verus!
