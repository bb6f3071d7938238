//! Field resolution: which field of a set bears the location.
//!
//! Named fields are scanned once, in declaration order. The scan stops at
//! the first field named exactly as the marker and takes it; fields further
//! down are not looked at, so neither a second field of that name nor a
//! marker attribute behind it is a conflict. A second field that carries the
//! marker attribute, met before the scan has stopped, is an error. Where no
//! field is so named, the one field that carries the attribute is taken.
//! A tuple-like set of a single field needs no attribute. A set without
//! fields has nothing to take.

use vstd::prelude::*;
use crate::shape::{FieldRef, FieldSet, NamedField, ResolveError, UnnamedField};

verus! {

/// One of the attribute names is the marker. A field that carries the
/// marker attribute more than once carries it, and counts as one field.
pub open spec fn carries(attrs: Seq<String>, marker: Seq<char>) -> bool {
    exists|j: int| 0 <= j < attrs.len() && (#[trigger] attrs[j])@ == marker
}

/// For each named field, whether it carries the marker attribute.
pub open spec fn named_marks(fields: Seq<NamedField>, marker: Seq<char>) -> Seq<bool> {
    Seq::new(fields.len(), |i: int| carries(fields[i].attrs@, marker))
}

/// For each unnamed field, whether it carries the marker attribute.
pub open spec fn unnamed_marks(fields: Seq<UnnamedField>, marker: Seq<char>) -> Seq<bool> {
    Seq::new(fields.len(), |i: int| carries(fields[i].attrs@, marker))
}

/// No field is marked.
pub open spec fn none_marked(marks: Seq<bool>) -> bool {
    forall|i: int| 0 <= i < marks.len() ==> !#[trigger] marks[i]
}

/// The field at `i` is marked, and no other is.
pub open spec fn only_marked(marks: Seq<bool>, i: int) -> bool {
    &&& 0 <= i < marks.len()
    &&& marks[i]
    &&& forall|j: int| 0 <= j < marks.len() && j != i ==> !#[trigger] marks[j]
}

/// Exactly one field is marked.
pub open spec fn one_marked(marks: Seq<bool>) -> bool {
    exists|i: int| only_marked(marks, i)
}

/// Two different fields are marked.
pub open spec fn several_marked(marks: Seq<bool>) -> bool {
    exists|i: int, j: int| 0 <= i < j < marks.len() && #[trigger] marks[i] && #[trigger] marks[j]
}

/// No field bears the marker as its name.
pub open spec fn none_named(fields: Seq<NamedField>, marker: Seq<char>) -> bool {
    forall|i: int| 0 <= i < fields.len() ==> (#[trigger] fields[i]).name@ != marker
}

/// The field at `i` is the first that bears the marker as its name.
pub open spec fn first_named(fields: Seq<NamedField>, marker: Seq<char>, i: int) -> bool {
    &&& 0 <= i < fields.len()
    &&& fields[i].name@ == marker
    &&& forall|j: int| 0 <= j < i ==> (#[trigger] fields[j]).name@ != marker
}

/// The fields at `i` and `j` both carry the marker attribute, and the scan
/// reaches the second of them: no field up to and including `j` is named as
/// the marker.
pub open spec fn early_pair(fields: Seq<NamedField>, marker: Seq<char>, i: int, j: int) -> bool {
    &&& 0 <= i < j < fields.len()
    &&& named_marks(fields, marker)[i]
    &&& named_marks(fields, marker)[j]
    &&& forall|m: int| 0 <= m <= j ==> (#[trigger] fields[m]).name@ != marker
}

/// The scan meets two marked fields before it meets a field named as the
/// marker.
pub open spec fn marked_twice_early(fields: Seq<NamedField>, marker: Seq<char>) -> bool {
    exists|i: int, j: int| #[trigger] early_pair(fields, marker, i, j)
}

/// A set of named fields has a field that resolution selects: a field named
/// as the marker with fewer than two marked fields before the first of that
/// name, or no field so named and exactly one that carries the marker
/// attribute.
pub open spec fn named_resolves(fields: Seq<NamedField>, marker: Seq<char>) -> bool {
    ||| !none_named(fields, marker) && !marked_twice_early(fields, marker)
    ||| none_named(fields, marker) && one_marked(named_marks(fields, marker))
}

/// What a scan for marked fields found.
#[derive(Clone, Copy, Debug, PartialEq, Eq, Structural)]
pub enum Picked {
    /// No field is marked.
    Nobody,
    /// Exactly this field is marked.
    One(usize),
    /// Two or more fields are marked.
    Many,
}

/// What `pick_marked` answers on `marks`.
pub open spec fn picked(marks: Seq<bool>, p: Picked) -> bool {
    match p {
        Picked::Nobody => none_marked(marks),
        Picked::One(i) => only_marked(marks, i as int),
        Picked::Many => several_marked(marks),
    }
}

/// What resolution answers on a set of named fields.
pub open spec fn named_outcome(
    fields: Seq<NamedField>,
    marker: Seq<char>,
    r: Result<usize, ResolveError>,
) -> bool {
    let marks = named_marks(fields, marker);
    match r {
        Ok(i) => {
            ||| first_named(fields, marker, i as int) && !marked_twice_early(fields, marker)
            ||| none_named(fields, marker) && only_marked(marks, i as int)
        },
        Err(ResolveError::Multiple) => marked_twice_early(fields, marker),
        Err(ResolveError::Nothing) => fields.len() == 0,
        Err(ResolveError::NotFound) => fields.len() > 0 && none_named(fields, marker)
            && none_marked(marks),
        Err(ResolveError::Unsupported) => false,
    }
}

/// What resolution answers on a tuple-like set of fields.
pub open spec fn unnamed_outcome(
    fields: Seq<UnnamedField>,
    marker: Seq<char>,
    r: Result<usize, ResolveError>,
) -> bool {
    let marks = unnamed_marks(fields, marker);
    match r {
        Ok(i) => only_marked(marks, i as int) || (fields.len() == 1 && i == 0),
        Err(ResolveError::Multiple) => several_marked(marks),
        Err(ResolveError::Nothing) => fields.len() == 0,
        Err(ResolveError::NotFound) => fields.len() >= 2 && none_marked(marks),
        Err(ResolveError::Unsupported) => false,
    }
}

/// What resolution answers on a field set of any kind, by index.
pub open spec fn fields_outcome(
    set: FieldSet,
    marker: Seq<char>,
    r: Result<usize, ResolveError>,
) -> bool {
    match set {
        FieldSet::Named(fields) => named_outcome(fields@, marker, r),
        FieldSet::Unnamed(fields) => unnamed_outcome(fields@, marker, r),
        FieldSet::Unit => r == Err::<usize, ResolveError>(ResolveError::Nothing),
    }
}

/// The field set has a field that resolution selects: for named fields as
/// `named_resolves` says; for a tuple-like set the single field, or exactly
/// one that carries the marker attribute.
pub open spec fn resolves(set: FieldSet, marker: Seq<char>) -> bool {
    match set {
        FieldSet::Named(fields) => named_resolves(fields@, marker),
        FieldSet::Unnamed(fields) => fields@.len() == 1 || one_marked(
            unnamed_marks(fields@, marker),
        ),
        FieldSet::Unit => false,
    }
}

/// The reference `f` names the field at `i` of `set`.
pub open spec fn refers_to(set: FieldSet, i: int, f: FieldRef) -> bool {
    &&& f.index == i
    &&& 0 <= i < set.count()
    &&& match set {
        FieldSet::Named(fields) => f.name is Some && f.name->Some_0@ == fields@[i].name@,
        FieldSet::Unnamed(_) => f.name is None,
        FieldSet::Unit => false,
    }
}

/// What `resolve_fields` answers on a field set: the reference to the field
/// that resolution selects by index, or its error.
pub open spec fn resolved(
    set: FieldSet,
    marker: Seq<char>,
    r: Result<FieldRef, ResolveError>,
) -> bool {
    match r {
        Ok(f) => fields_outcome(set, marker, Ok(f.index)) && refers_to(set, f.index as int, f),
        Err(e) => fields_outcome(set, marker, Err(e)),
    }
}

/// Whether one of `attrs` is the marker attribute.
pub fn carries_marker(attrs: &Vec<String>, marker: &String) -> (r: bool)
    ensures
        r == carries(attrs@, marker@),
{
    let mut j: usize = 0;
    while j < attrs.len()
        invariant
            j <= attrs.len(),
            forall|k: int| 0 <= k < j ==> (#[trigger] attrs@[k])@ != marker@,
        decreases attrs.len() - j,
    {
        if attrs[j] == *marker {
            return true;
        }
        j += 1;
    }
    false
}

/// Scans the marks in order and tells whether none, exactly one or several
/// are set.
pub fn pick_marked(marks: &Vec<bool>) -> (p: Picked)
    ensures
        picked(marks@, p),
{
    let mut found: Option<usize> = None;
    let mut i: usize = 0;
    while i < marks.len()
        invariant
            i <= marks.len(),
            match found {
                Some(k) => k < i && marks@[k as int] && forall|j: int|
                    0 <= j < i && j != k ==> !#[trigger] marks@[j],
                None => forall|j: int| 0 <= j < i ==> !#[trigger] marks@[j],
            },
        decreases marks.len() - i,
    {
        if marks[i] {
            match found {
                Some(k) => {
                    assert(marks@[k as int] && marks@[i as int]);
                    return Picked::Many;
                },
                None => {
                    found = Some(i);
                },
            }
        }
        i += 1;
    }
    match found {
        Some(k) => Picked::One(k),
        None => Picked::Nobody,
    }
}

/// The marks of a tuple-like set of fields.
pub fn marks_of_unnamed(fields: &Vec<UnnamedField>, marker: &String) -> (marks: Vec<bool>)
    ensures
        marks@ == unnamed_marks(fields@, marker@),
{
    let mut marks: Vec<bool> = Vec::new();
    let mut i: usize = 0;
    while i < fields.len()
        invariant
            i <= fields.len(),
            marks@.len() == i,
            forall|k: int|
                0 <= k < i ==> #[trigger] marks@[k] == carries(fields@[k].attrs@, marker@),
        decreases fields.len() - i,
    {
        let m = carries_marker(&fields[i].attrs, marker);
        marks.push(m);
        i += 1;
    }
    assert(marks@ =~= unnamed_marks(fields@, marker@));
    marks
}

/// Selects the location-bearing field of a set of named fields, in one scan
/// in declaration order.
///
/// Fails with `Nothing` where the set has no fields, and with `Multiple`
/// where two fields carry the marker attribute and no field up to the second
/// of them is named as the marker. Otherwise succeeds with the first field
/// named as the marker; without one, with the only field that carries the
/// attribute; and fails with `NotFound` where there is neither.
pub fn resolve_named(fields: &Vec<NamedField>, marker: &String) -> (r: Result<usize, ResolveError>)
    ensures
        named_outcome(fields@, marker@, r),
        r is Ok <==> named_resolves(fields@, marker@),
        r == Err::<usize, ResolveError>(ResolveError::Multiple) <==> marked_twice_early(
            fields@,
            marker@,
        ),
        r == Err::<usize, ResolveError>(ResolveError::Nothing) <==> fields@.len() == 0,
        r == Err::<usize, ResolveError>(ResolveError::NotFound) <==> fields@.len() > 0
            && none_named(fields@, marker@) && none_marked(named_marks(fields@, marker@)),
{
    let ghost marks = named_marks(fields@, marker@);
    let mut found: Option<usize> = None;
    let mut i: usize = 0;
    while i < fields.len()
        invariant
            i <= fields.len(),
            marks == named_marks(fields@, marker@),
            forall|m: int| 0 <= m < i ==> (#[trigger] fields@[m]).name@ != marker@,
            match found {
                Some(k) => k < i && marks[k as int] && forall|j: int|
                    0 <= j < i && j != k ==> !#[trigger] marks[j],
                None => forall|j: int| 0 <= j < i ==> !#[trigger] marks[j],
            },
        decreases fields.len() - i,
    {
        if fields[i].name == *marker {
            proof {
                assert forall|a: int, b: int| !#[trigger] early_pair(
                    fields@,
                    marker@,
                    a,
                    b,
                ) by {
                    if early_pair(fields@, marker@, a, b) {
                        assert(b < i) by {
                            if i <= b {
                                assert(fields@[i as int].name@ != marker@);
                            }
                        }
                        assert(marks[a] && marks[b]);
                    }
                }
            }
            return Ok(i);
        }
        if carries_marker(&fields[i].attrs, marker) {
            assert(marks[i as int]);
            match found {
                Some(k) => {
                    assert(early_pair(fields@, marker@, k as int, i as int));
                    return Err(ResolveError::Multiple);
                },
                None => {
                    found = Some(i);
                },
            }
        } else {
            assert(!marks[i as int]);
        }
        i += 1;
    }
    proof {
        assert forall|a: int, b: int| !#[trigger] early_pair(fields@, marker@, a, b) by {
            if early_pair(fields@, marker@, a, b) {
                assert(marks[a] && marks[b]);
            }
        }
    }
    match found {
        Some(k) => Ok(k),
        None => if fields.len() == 0 {
            Err(ResolveError::Nothing)
        } else {
            Err(ResolveError::NotFound)
        },
    }
}

/// Selects the location-bearing field of a tuple-like set of fields.
///
/// Fails with `Multiple` where two fields carry the marker attribute and with
/// `Nothing` where the set is empty. Otherwise succeeds with the only field
/// that carries the attribute, or with the single field of a set of one;
/// a set of two or more fields with none marked fails with `NotFound`.
pub fn resolve_unnamed(fields: &Vec<UnnamedField>, marker: &String) -> (r: Result<
    usize,
    ResolveError,
>)
    ensures
        unnamed_outcome(fields@, marker@, r),
        r is Ok <==> fields@.len() == 1 || one_marked(unnamed_marks(fields@, marker@)),
        r == Err::<usize, ResolveError>(ResolveError::Multiple) <==> several_marked(
            unnamed_marks(fields@, marker@),
        ),
        r == Err::<usize, ResolveError>(ResolveError::Nothing) <==> fields@.len() == 0,
        r == Err::<usize, ResolveError>(ResolveError::NotFound) <==> fields@.len() >= 2
            && none_marked(unnamed_marks(fields@, marker@)),
{
    let marks = marks_of_unnamed(fields, marker);
    match pick_marked(&marks) {
        Picked::Many => Err(ResolveError::Multiple),
        Picked::One(i) => Ok(i),
        Picked::Nobody => {
            if fields.len() == 0 {
                Err(ResolveError::Nothing)
            } else if fields.len() == 1 {
                Ok(0)
            } else {
                Err(ResolveError::NotFound)
            }
        },
    }
}

/// Selects the location-bearing field of a field set and refers to it by
/// index and, in a set of named fields, by name. A unit set has nothing to
/// select and fails with `Nothing`.
pub fn resolve_fields(set: &FieldSet, marker: &String) -> (r: Result<FieldRef, ResolveError>)
    ensures
        resolved(*set, marker@, r),
        r is Ok <==> resolves(*set, marker@),
{
    match set {
        FieldSet::Named(fields) => match resolve_named(fields, marker) {
            Ok(i) => Ok(FieldRef { index: i, name: Some(fields[i].name.clone()) }),
            Err(e) => Err(e),
        },
        FieldSet::Unnamed(fields) => match resolve_unnamed(fields, marker) {
            Ok(i) => Ok(FieldRef { index: i, name: None }),
            Err(e) => Err(e),
        },
        FieldSet::Unit => Err(ResolveError::Nothing),
    }
}

} // verus!
