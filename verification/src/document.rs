//! Documents: the loosely typed payloads exchanged with an entity store.
//!
//! A document is an ordered mapping from field names to dynamically typed
//! values. The dynamic query engine only works on flat objects, so a value
//! below the top level records that it is nested without keeping what it
//! holds.

use vstd::prelude::*;

verus! {

/// A dynamically typed value as it stands in a field of a document.
#[derive(Debug, PartialEq, Eq)]
pub enum FieldValue {
    /// The absent value.
    Null,
    /// A boolean literal.
    Bool(bool),
    /// A number, kept as its decimal numeral.
    Number(String),
    /// A string.
    Text(String),
    /// An array or an object: a document that holds one is not flat.
    Nested,
}

/// The mathematical model of a [`FieldValue`].
pub enum ValueModel {
    Null,
    Bool(bool),
    Number(Seq<char>),
    Text(Seq<char>),
    Nested,
}

impl View for FieldValue {
    type V = ValueModel;

    open spec fn view(&self) -> ValueModel {
        match *self {
            FieldValue::Null => ValueModel::Null,
            FieldValue::Bool(b) => ValueModel::Bool(b),
            FieldValue::Number(n) => ValueModel::Number(n@),
            FieldValue::Text(t) => ValueModel::Text(t@),
            FieldValue::Nested => ValueModel::Nested,
        }
    }
}

impl FieldValue {
    /// A copy of the value.
    pub fn duplicate(&self) -> (copy: FieldValue)
        ensures
            copy@ == self@,
    {
        match self {
            FieldValue::Null => FieldValue::Null,
            FieldValue::Bool(b) => FieldValue::Bool(*b),
            FieldValue::Number(n) => FieldValue::Number(n.clone()),
            FieldValue::Text(t) => FieldValue::Text(t.clone()),
            FieldValue::Nested => FieldValue::Nested,
        }
    }
}

/// One entry of a document.
#[derive(Debug, PartialEq, Eq)]
pub struct Field {
    pub name: String,
    pub value: FieldValue,
}

/// The mathematical model of a [`Field`].
pub struct FieldModel {
    pub name: Seq<char>,
    pub value: ValueModel,
}

impl View for Field {
    type V = FieldModel;

    open spec fn view(&self) -> FieldModel {
        FieldModel { name: self.name@, value: self.value@ }
    }
}

impl Field {
    /// A copy of the entry.
    pub fn duplicate(&self) -> (copy: Field)
        ensures
            copy@ == self@,
    {
        Field { name: self.name.clone(), value: self.value.duplicate() }
    }
}

/// The names of `fields`, in order.
pub open spec fn names_of(fields: Seq<FieldModel>) -> Seq<Seq<char>> {
    Seq::new(fields.len(), |i: int| fields[i].name)
}

/// No two entries of `fields` share a name.
pub open spec fn distinct_names(fields: Seq<FieldModel>) -> bool {
    forall|i: int, j: int| 0 <= i < j < fields.len() ==> fields[i].name != fields[j].name
}

/// No entry of `fields` holds a nested value.
pub open spec fn all_scalar(fields: Seq<FieldModel>) -> bool {
    forall|i: int| 0 <= i < fields.len() ==> !(#[trigger] fields[i].value is Nested)
}

/// The position of the first entry of `fields` at or after `start` that is
/// called `name`.
pub open spec fn find_from(fields: Seq<FieldModel>, name: Seq<char>, start: int) -> Option<int>
    decreases fields.len() - start,
{
    if start < 0 || start >= fields.len() {
        None
    } else if fields[start].name == name {
        Some(start)
    } else {
        find_from(fields, name, start + 1)
    }
}

/// The position of the entry of `fields` that is called `name`.
pub open spec fn position_of(fields: Seq<FieldModel>, name: Seq<char>) -> Option<int> {
    find_from(fields, name, 0)
}

/// What `fields` becomes when `name` is set to `value`: the entry called
/// `name` takes the new value where it stands, and a new name goes last.
pub open spec fn with_entry(fields: Seq<FieldModel>, name: Seq<char>, value: ValueModel) -> Seq<
    FieldModel,
> {
    match position_of(fields, name) {
        Some(i) => fields.update(i, FieldModel { name, value }),
        None => fields.push(FieldModel { name, value }),
    }
}

/// A search from `start` finds an entry called `name` at or after `start`,
/// and passes over no entry of that name; it fails only where there is none.
pub proof fn lemma_find_from(fields: Seq<FieldModel>, name: Seq<char>, start: int)
    requires
        0 <= start <= fields.len(),
    ensures
        match find_from(fields, name, start) {
            Some(i) => start <= i < fields.len() && fields[i].name == name && forall|j: int|
                start <= j < i ==> fields[j].name != name,
            None => forall|j: int| start <= j < fields.len() ==> fields[j].name != name,
        },
    decreases fields.len() - start,
{
    if start < fields.len() && fields[start].name != name {
        lemma_find_from(fields, name, start + 1);
    }
}

/// Setting an entry keeps the names distinct.
pub proof fn lemma_with_entry_distinct(fields: Seq<FieldModel>, name: Seq<char>, value: ValueModel)
    requires
        distinct_names(fields),
    ensures
        distinct_names(with_entry(fields, name, value)),
{
    lemma_find_from(fields, name, 0);
}

/// A structured value handed to or returned by an entity store.
///
/// It is either an object, holding an ordered list of entries with distinct
/// names, or some other value, which holds none.
#[derive(Debug, PartialEq, Eq)]
pub struct Document {
    object: bool,
    fields: Vec<Field>,
}

impl View for Document {
    type V = Seq<FieldModel>;

    closed spec fn view(&self) -> Seq<FieldModel> {
        Seq::new(self.fields@.len(), |i: int| self.fields@[i]@)
    }
}

impl Document {
    /// Whether the document is an object.
    pub closed spec fn is_object(&self) -> bool {
        self.object
    }

    /// The validity of a document: the names of an object are distinct, and
    /// anything but an object has no entries.
    #[verifier::type_invariant]
    pub open spec fn wf(&self) -> bool {
        &&& distinct_names(self@)
        &&& !self.is_object() ==> self@.len() == 0
    }

    /// Whether the document is an object whose values are all scalars.
    pub open spec fn is_flat_object(&self) -> bool {
        self.is_object() && all_scalar(self@)
    }

    /// The object without entries.
    pub fn new() -> (doc: Document)
        ensures
            doc.wf(),
            doc.is_object(),
            doc@ == Seq::<FieldModel>::empty(),
    {
        let doc = Document { object: true, fields: Vec::new() };
        assert(doc@ =~= Seq::<FieldModel>::empty());
        doc
    }

    /// A value that is no object: a scalar or an array at the top level.
    pub fn not_an_object() -> (doc: Document)
        ensures
            doc.wf(),
            !doc.is_object(),
            doc@ == Seq::<FieldModel>::empty(),
    {
        let doc = Document { object: false, fields: Vec::new() };
        assert(doc@ =~= Seq::<FieldModel>::empty());
        doc
    }

    /// Whether the document is an object.
    pub fn object(&self) -> (b: bool)
        ensures
            b == self.is_object(),
    {
        self.object
    }

    /// The number of entries.
    pub fn len(&self) -> (n: usize)
        ensures
            n == self@.len(),
    {
        self.fields.len()
    }

    /// The entry at position `i`.
    pub fn field(&self, i: usize) -> (f: &Field)
        requires
            i < self@.len(),
        ensures
            f@ == self@[i as int],
    {
        &self.fields[i]
    }

    /// The position of the entry called `name`.
    pub fn position(&self, name: &String) -> (found: Option<usize>)
        ensures
            match found {
                Some(i) => position_of(self@, name@) == Some(i as int),
                None => position_of(self@, name@) is None,
            },
    {
        let mut i: usize = 0;
        while i < self.fields.len()
            invariant
                0 <= i <= self.fields.len(),
                self@.len() == self.fields.len(),
                forall|k: int| 0 <= k < self.fields.len() ==> self@[k] == self.fields@[k]@,
                find_from(self@, name@, 0) == find_from(self@, name@, i as int),
            decreases self.fields.len() - i,
        {
            if self.fields[i].name == *name {
                return Some(i);
            }
            i = i + 1;
        }
        None
    }

    /// The value of the entry called `name`.
    pub fn get(&self, name: &String) -> (found: Option<&FieldValue>)
        ensures
            match found {
                Some(v) => position_of(self@, name@) matches Some(i) && v@ == self@[i].value,
                None => position_of(self@, name@) is None,
            },
    {
        match self.position(name) {
            Some(i) => {
                proof {
                    lemma_find_from(self@, name@, 0);
                }
                Some(&self.fields[i].value)
            },
            None => None,
        }
    }

    /// Sets the entry called `name` to `value`. On anything but an object
    /// this does nothing and returns `false`.
    pub fn insert(&mut self, name: String, value: FieldValue) -> (done: bool)
        ensures
            final(self).wf(),
            final(self).is_object() == old(self).is_object(),
            done == old(self).is_object(),
            done ==> final(self)@ == with_entry(old(self)@, name@, value@),
            !done ==> final(self)@ == old(self)@,
    {
        proof {
            use_type_invariant(&*self);
            lemma_find_from(self@, name@, 0);
            lemma_with_entry_distinct(self@, name@, value@);
        }
        if !self.object {
            return false;
        }
        let ghost before = self@;
        let ghost name_model = name@;
        let ghost value_model = value@;
        let found = self.position(&name);
        let mut fields: Vec<Field> = Vec::new();
        assert(Seq::new(fields@.len(), |i: int| fields@[i]@) =~= Seq::<FieldModel>::empty());
        std::mem::swap(&mut self.fields, &mut fields);
        match found {
            Some(i) => {
                fields.set(i, Field { name, value });
            },
            None => {
                fields.push(Field { name, value });
            },
        }
        assert(Seq::new(fields@.len(), |i: int| fields@[i]@) =~= with_entry(
            before,
            name_model,
            value_model,
        ));
        self.fields = fields;
        true
    }
}

} // verus!
