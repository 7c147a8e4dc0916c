//! The typed column registry of an entity: which semantic kind each field
//! has, and how the type names that the backend reports map to those kinds.

use vstd::prelude::*;
use vstd::string::*;

verus! {

/// The semantic kind of a column.
#[derive(Clone, Copy, Debug, PartialEq, Eq, Structural)]
pub enum ColumnKind {
    /// A UUID.
    Identifier,
    /// One of the entity's named discrete values.
    Enumeration,
    /// A date and time without a time zone.
    Timestamp,
    /// A boolean.
    Boolean,
    /// Free text; the kind of every field that is not declared.
    Text,
}

/// A field of an entity together with its semantic kind.
#[derive(Debug, PartialEq, Eq)]
pub struct ColumnDescriptor {
    pub name: String,
    pub kind: ColumnKind,
}

/// The mathematical model of a [`ColumnDescriptor`].
pub struct ColumnModel {
    pub name: Seq<char>,
    pub kind: ColumnKind,
}

impl View for ColumnDescriptor {
    type V = ColumnModel;

    open spec fn view(&self) -> ColumnModel {
        ColumnModel { name: self.name@, kind: self.kind }
    }
}

/// What each of `columns` holds.
pub open spec fn column_models(columns: Seq<ColumnDescriptor>) -> Seq<ColumnModel> {
    Seq::new(columns.len(), |i: int| columns[i]@)
}

/// The mathematical model of a [`Registry`].
pub struct RegistryModel {
    /// The declared columns, in the order of their declaration.
    pub columns: Seq<ColumnModel>,
    /// The name under which the backend reports the entity's enumeration.
    pub enumeration_type: Seq<char>,
    /// The labels of the entity's enumeration.
    pub labels: Seq<Seq<char>>,
}

/// The position of the first column of `columns` at or after `start` that is
/// called `name`.
pub open spec fn column_from(columns: Seq<ColumnModel>, name: Seq<char>, start: int) -> Option<int>
    decreases columns.len() - start,
{
    if start < 0 || start >= columns.len() {
        None
    } else if columns[start].name == name {
        Some(start)
    } else {
        column_from(columns, name, start + 1)
    }
}

/// No two columns share a name.
pub open spec fn distinct_columns(columns: Seq<ColumnModel>) -> bool {
    forall|i: int, j: int| 0 <= i < j < columns.len() ==> columns[i].name != columns[j].name
}

impl RegistryModel {
    /// Whether a column called `name` is declared.
    pub open spec fn declares(self, name: Seq<char>) -> bool {
        column_from(self.columns, name, 0) is Some
    }

    /// The semantic kind of the field called `name`: that of its declaration,
    /// and `Text` for a field that is not declared.
    pub open spec fn kind_of(self, name: Seq<char>) -> ColumnKind {
        match column_from(self.columns, name, 0) {
            Some(i) => self.columns[i].kind,
            None => ColumnKind::Text,
        }
    }

    /// The semantic kind of a column whose type the backend reports as
    /// `reported_type`.
    pub open spec fn kind_for_type(self, reported_type: Seq<char>) -> ColumnKind {
        if reported_type == "UUID"@ {
            ColumnKind::Identifier
        } else if reported_type == self.enumeration_type {
            ColumnKind::Enumeration
        } else if reported_type == "BOOL"@ {
            ColumnKind::Boolean
        } else if reported_type == "TIMESTAMP"@ {
            ColumnKind::Timestamp
        } else {
            ColumnKind::Text
        }
    }

    /// Whether `label` is one of the labels of the enumeration.
    pub open spec fn has_label(self, label: Seq<char>) -> bool {
        self.labels.contains(label)
    }

    /// What the registry becomes when a column is declared: a new name goes
    /// last, and a name that is declared already changes nothing.
    pub open spec fn with_column(self, name: Seq<char>, kind: ColumnKind) -> RegistryModel {
        if self.declares(name) {
            self
        } else {
            RegistryModel { columns: self.columns.push(ColumnModel { name, kind }), ..self }
        }
    }
}

/// A search from `start` finds a column called `name` at or after `start`,
/// and passes over no column of that name; it fails only where there is none.
pub proof fn lemma_column_from(columns: Seq<ColumnModel>, name: Seq<char>, start: int)
    requires
        0 <= start <= columns.len(),
    ensures
        match column_from(columns, name, start) {
            Some(i) => start <= i < columns.len() && columns[i].name == name && forall|j: int|
                start <= j < i ==> columns[j].name != name,
            None => forall|j: int| start <= j < columns.len() ==> columns[j].name != name,
        },
    decreases columns.len() - start,
{
    if start < columns.len() && columns[start].name != name {
        lemma_column_from(columns, name, start + 1);
    }
}

/// The typed column registry of one entity.
#[derive(Debug, PartialEq, Eq)]
pub struct Registry {
    columns: Vec<ColumnDescriptor>,
    enumeration_type: String,
    labels: Vec<String>,
}

impl View for Registry {
    type V = RegistryModel;

    closed spec fn view(&self) -> RegistryModel {
        RegistryModel {
            columns: column_models(self.columns@),
            enumeration_type: self.enumeration_type@,
            labels: Seq::new(self.labels@.len(), |i: int| self.labels@[i]@),
        }
    }
}

impl Registry {
    /// The validity of a registry: every declared field has exactly one
    /// semantic kind.
    #[verifier::type_invariant]
    pub open spec fn wf(&self) -> bool {
        distinct_columns(self@.columns)
    }

    /// A registry without columns, for an entity whose enumeration the
    /// backend reports as `enumeration_type` and which has the given labels.
    pub fn new(enumeration_type: String, labels: Vec<String>) -> (registry: Registry)
        ensures
            registry.wf(),
            registry@.columns == Seq::<ColumnModel>::empty(),
            registry@.enumeration_type == enumeration_type@,
            registry@.labels == Seq::new(labels@.len(), |i: int| labels@[i]@),
    {
        let registry = Registry { columns: Vec::new(), enumeration_type, labels };
        assert(registry@.columns =~= Seq::<ColumnModel>::empty());
        registry
    }

    /// The number of declared columns.
    pub fn len(&self) -> (n: usize)
        ensures
            n == self@.columns.len(),
    {
        self.columns.len()
    }

    /// The declared columns, in the order of their declaration.
    pub fn columns(&self) -> (columns: &Vec<ColumnDescriptor>)
        ensures
            column_models(columns@) == self@.columns,
    {
        &self.columns
    }

    /// The column declared at position `i`.
    pub fn column(&self, i: usize) -> (c: &ColumnDescriptor)
        requires
            i < self@.columns.len(),
        ensures
            c@ == self@.columns[i as int],
    {
        &self.columns[i]
    }

    fn position(&self, name: &String) -> (found: Option<usize>)
        ensures
            match found {
                Some(i) => column_from(self@.columns, name@, 0) == Some(i as int)
                    && i < self.columns.len(),
                None => column_from(self@.columns, name@, 0) is None,
            },
    {
        let mut i: usize = 0;
        while i < self.columns.len()
            invariant
                0 <= i <= self.columns.len(),
                self@.columns.len() == self.columns.len(),
                forall|k: int|
                    0 <= k < self.columns.len() ==> self@.columns[k] == self.columns@[k]@,
                column_from(self@.columns, name@, 0) == column_from(self@.columns, name@, i as int),
            decreases self.columns.len() - i,
        {
            if self.columns[i].name == *name {
                return Some(i);
            }
            i = i + 1;
        }
        None
    }

    /// Declares a column. A name that is declared already keeps its kind, and
    /// the call returns `false`.
    pub fn declare(&mut self, name: String, kind: ColumnKind) -> (added: bool)
        ensures
            final(self).wf(),
            added == !old(self)@.declares(name@),
            final(self)@ == old(self)@.with_column(name@, kind),
    {
        proof {
            use_type_invariant(&*self);
            lemma_column_from(self@.columns, name@, 0);
        }
        let ghost before = self@;
        let ghost name_model = name@;
        match self.position(&name) {
            Some(_) => false,
            None => {
                let mut columns: Vec<ColumnDescriptor> = Vec::new();
                assert(column_models(columns@) =~= Seq::<ColumnModel>::empty());
                std::mem::swap(&mut self.columns, &mut columns);
                columns.push(ColumnDescriptor { name, kind });
                assert(column_models(columns@) =~= before.columns.push(
                    ColumnModel { name: name_model, kind },
                ));
                self.columns = columns;
                assert(self@.labels =~= before.labels);
                true
            },
        }
    }

    /// Whether a column called `name` is declared.
    pub fn declares(&self, name: &String) -> (b: bool)
        ensures
            b == self@.declares(name@),
    {
        self.position(name).is_some()
    }

    /// The semantic kind of the field called `name`.
    pub fn kind_of(&self, name: &String) -> (kind: ColumnKind)
        ensures
            kind == self@.kind_of(name@),
    {
        match self.position(name) {
            Some(i) => self.columns[i].kind,
            None => ColumnKind::Text,
        }
    }

    /// The semantic kind of a column whose type the backend reports as
    /// `reported_type`.
    pub fn kind_for_type(&self, reported_type: &String) -> (kind: ColumnKind)
        ensures
            kind == self@.kind_for_type(reported_type@),
    {
        if *reported_type == String::from_str("UUID") {
            ColumnKind::Identifier
        } else if *reported_type == self.enumeration_type {
            ColumnKind::Enumeration
        } else if *reported_type == String::from_str("BOOL") {
            ColumnKind::Boolean
        } else if *reported_type == String::from_str("TIMESTAMP") {
            ColumnKind::Timestamp
        } else {
            ColumnKind::Text
        }
    }

    /// Whether `label` is one of the labels of the enumeration.
    pub fn has_label(&self, label: &String) -> (b: bool)
        ensures
            b == self@.has_label(label@),
    {
        let mut i: usize = 0;
        while i < self.labels.len()
            invariant
                0 <= i <= self.labels.len(),
                self@.labels.len() == self.labels.len(),
                forall|k: int| 0 <= k < self.labels.len() ==> self@.labels[k] == self.labels@[k]@,
                forall|k: int| 0 <= k < i ==> self@.labels[k] != label@,
            decreases self.labels.len() - i,
        {
            if self.labels[i] == *label {
                assert(self@.labels[i as int] == label@);
                return true;
            }
            i = i + 1;
        }
        false
    }
}

} // verus!
