//! **Declared types**: a name, and the keys a thing of it carries. A type is
//! write-time help and a question a reader asks; it gates nothing.

use vstd::prelude::*;

verus! {

/// What a key's value holds.
#[derive(Debug, Clone, Copy, PartialEq, Eq, Structural)]
pub enum ValueType {
    Text,
    Number,
    Date,
    DateRange,
    Boolean,
    Reference,
}

/// How the writes of a key come down to the one value it holds.
#[derive(Debug, Clone, Copy, PartialEq, Eq, Structural)]
pub enum Fold {
    /// The newest write wins.
    Newest,
    /// The writes add up: a counter.
    Sum,
}

/// One key of a type, and what it holds.
#[derive(Debug)]
pub struct Field {
    pub key: String,
    pub holds: ValueType,
    /// Zero or more of what `holds` says, written with commas between.
    pub list: bool,
    /// The kind a reference points at, when it names one.
    pub points_at: Option<String>,
    pub folds: Fold,
    pub required: bool,
    pub one_of: Option<Vec<String>>,
}

impl Field {
    /// A key holding `holds`: one value, the newest write winning, not
    /// required, narrowed to no set.
    pub fn new(key: &str, holds: ValueType) -> (f: Field)
        ensures
            f.key@ == key@,
            f.holds == holds,
            !f.list,
            f.points_at is None,
            f.folds == Fold::Newest,
            !f.required,
            f.one_of is None,
    {
        Field { key: String::from_str(key), holds, list: false, points_at: None, folds: Fold::Newest, required: false, one_of: None }
    }
}

impl View for Field {
    type V = (Seq<char>, ValueType, bool, Option<Seq<char>>, Fold, bool, Option<Seq<Seq<char>>>);

    open spec fn view(&self) -> Self::V {
        (
            self.key@,
            self.holds,
            self.list,
            match self.points_at {
                Some(k) => Some(k@),
                None => None,
            },
            self.folds,
            self.required,
            match self.one_of {
                Some(v) => Some(v@.map_values(|t: String| t@)),
                None => None,
            },
        )
    }
}

/// A declared type: a name and its keys.
#[derive(Debug)]
pub struct DeclaredType {
    pub name: String,
    pub fields: Vec<Field>,
}

impl DeclaredType {
    /// A type called `name` carrying `fields`.
    pub fn new(name: &str, fields: Vec<Field>) -> (t: DeclaredType)
        ensures
            t.name@ == name@,
            t.fields@ == fields@,
    {
        DeclaredType { name: String::from_str(name), fields }
    }
}

} // verus!
