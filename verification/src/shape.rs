//! The declared shape of a type, as far as field resolution reads it.

use vstd::prelude::*;

verus! {

/// Which of the two traits is being derived.
#[derive(Clone, Copy, Debug, PartialEq, Eq, Structural)]
pub enum Target {
    Loc,
    Pos,
}

impl Target {
    /// The marker of this target: the field name that is taken by
    /// convention, which is also the name of the attribute that marks a field.
    pub open spec fn marker_name(self) -> Seq<char> {
        match self {
            Target::Loc => "loc"@,
            Target::Pos => "pos"@,
        }
    }

    /// The marker as a string, `"loc"` or `"pos"`.
    pub fn marker(&self) -> (r: String)
        ensures
            r@ == self.marker_name(),
    {
        match self {
            Target::Loc => "loc".to_owned(),
            Target::Pos => "pos".to_owned(),
        }
    }
}

/// A field of a set with named fields: its name and the names of the
/// attributes written on it.
#[derive(Clone, Debug, PartialEq, Eq)]
pub struct NamedField {
    pub name: String,
    pub attrs: Vec<String>,
}

/// A field of a tuple-like set: the names of the attributes written on it.
/// Its index is its place in the set.
#[derive(Clone, Debug, PartialEq, Eq)]
pub struct UnnamedField {
    pub attrs: Vec<String>,
}

/// The fields of a struct or of one enum variant.
#[derive(Clone, Debug, PartialEq, Eq)]
pub enum FieldSet {
    Named(Vec<NamedField>),
    Unnamed(Vec<UnnamedField>),
    Unit,
}

/// One variant of an enum.
#[derive(Clone, Debug, PartialEq, Eq)]
pub struct Variant {
    pub name: String,
    pub fields: FieldSet,
}

/// The shape of the type that a derive stands on.
#[derive(Clone, Debug, PartialEq, Eq)]
pub enum RecordShape {
    Struct(FieldSet),
    Enum(Vec<Variant>),
    Union,
}

/// Why no field could be selected.
#[derive(Clone, Copy, Debug, PartialEq, Eq, Structural)]
pub enum ResolveError {
    /// No field qualifies.
    NotFound,
    /// More than one field carries the marker attribute.
    Multiple,
    /// There is no field at all to read.
    Nothing,
    /// The type is a union.
    Unsupported,
}

/// The selected field: its place in the field set, and its name where the
/// set has named fields.
#[derive(Clone, Debug, PartialEq, Eq)]
pub struct FieldRef {
    pub index: usize,
    pub name: Option<String>,
}

impl FieldSet {
    /// The number of fields in the set.
    pub open spec fn count(self) -> nat {
        match self {
            FieldSet::Named(fields) => fields@.len(),
            FieldSet::Unnamed(fields) => fields@.len(),
            FieldSet::Unit => 0,
        }
    }

    /// The number of fields in the set.
    pub fn len(&self) -> (n: usize)
        ensures
            n == self.count(),
    {
        match self {
            FieldSet::Named(fields) => fields.len(),
            FieldSet::Unnamed(fields) => fields.len(),
            FieldSet::Unit => 0,
        }
    }
}

} // verus!
