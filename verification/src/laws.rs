//! Laws of resolution and synthesis, stated over the outcomes that the
//! functions' contracts speak of.

use vstd::prelude::*;
use crate::eval::{Instance, Item};
use srcpos::{Loc, Pos};
use crate::resolve::{
    fields_outcome, first_named, marked_twice_early, named_marks, named_outcome, only_marked,
    resolves, several_marked, unnamed_marks, unnamed_outcome,
};
use crate::shape::{FieldSet, NamedField, RecordShape, ResolveError, UnnamedField, Variant};
use crate::synth::{all_resolve, derived, dispatched, Accessor, Arm, DeriveError};

verus! {

/// The field that resolution selects in a value of the given variant of a
/// shape is the field at `i`.
pub open spec fn selects(shape: RecordShape, marker: Seq<char>, variant: int, i: usize) -> bool {
    match shape {
        RecordShape::Struct(set) => fields_outcome(set, marker, Ok(i)),
        RecordShape::Enum(variants) => 0 <= variant < variants@.len() && fields_outcome(
            variants@[variant].fields,
            marker,
            Ok(i),
        ),
        RecordShape::Union => false,
    }
}

/// Resolution of named fields has one answer: two outcomes of the same
/// field set are the same outcome.
pub proof fn named_outcome_unique(
    fields: Seq<NamedField>,
    marker: Seq<char>,
    a: Result<usize, ResolveError>,
    b: Result<usize, ResolveError>,
)
    requires
        named_outcome(fields, marker, a),
        named_outcome(fields, marker, b),
    ensures
        a == b,
{
}

/// Resolution of unnamed fields has one answer.
pub proof fn unnamed_outcome_unique(
    fields: Seq<UnnamedField>,
    marker: Seq<char>,
    a: Result<usize, ResolveError>,
    b: Result<usize, ResolveError>,
)
    requires
        unnamed_outcome(fields, marker, a),
        unnamed_outcome(fields, marker, b),
    ensures
        a == b,
{
}

/// Resolution of a field set of any kind has one answer.
pub proof fn fields_outcome_unique(
    set: FieldSet,
    marker: Seq<char>,
    a: Result<usize, ResolveError>,
    b: Result<usize, ResolveError>,
)
    requires
        fields_outcome(set, marker, a),
        fields_outcome(set, marker, b),
    ensures
        a == b,
{
    match set {
        FieldSet::Named(fields) => named_outcome_unique(fields@, marker, a, b),
        FieldSet::Unnamed(fields) => unnamed_outcome_unique(fields@, marker, a, b),
        FieldSet::Unit => {},
    }
}

/// Resolution succeeds on exactly the field sets that resolve.
pub proof fn resolves_iff_ok(set: FieldSet, marker: Seq<char>, r: Result<usize, ResolveError>)
    requires
        fields_outcome(set, marker, r),
    ensures
        r is Ok <==> resolves(set, marker),
{
    match set {
        FieldSet::Named(fields) => {
            if r is Ok {
                let i = r->Ok_0 as int;
                if !first_named(fields@, marker, i) {
                    assert(only_marked(named_marks(fields@, marker), i));
                }
            }
        },
        FieldSet::Unnamed(fields) => {
            if r is Ok {
                let i = r->Ok_0 as int;
                if fields@.len() != 1 {
                    assert(only_marked(unnamed_marks(fields@, marker), i));
                }
            }
        },
        FieldSet::Unit => {},
    }
}

/// A set of named fields with a field named as the marker resolves, and to
/// the first field of that name, unless the scan meets two marked fields
/// before it gets there.
pub proof fn named_field_is_selected(
    fields: Seq<NamedField>,
    marker: Seq<char>,
    k: int,
    r: Result<usize, ResolveError>,
)
    requires
        0 <= k < fields.len(),
        fields[k].name@ == marker,
        !marked_twice_early(fields, marker),
        named_outcome(fields, marker, r),
    ensures
        r is Ok,
        first_named(fields, marker, r->Ok_0 as int),
        r->Ok_0 <= k,
{
}

/// A struct with a field named as the marker, and without two marked fields
/// before the first of that name, derives, and its accessor returns the
/// value of the first field of that name unchanged.
pub proof fn struct_with_named_field_derives(
    fields: Vec<NamedField>,
    marker: Seq<char>,
    k: int,
    r: Result<Accessor, DeriveError>,
    inst: Instance,
)
    requires
        0 <= k < fields@.len(),
        fields@[k].name@ == marker,
        !marked_twice_early(fields@, marker),
        derived(RecordShape::Struct(FieldSet::Named(fields)), marker, r),
        inst.fields@.len() == fields@.len(),
    ensures
        r is Ok,
        r->Ok_0.reads(inst.variant as int) is Some,
        first_named(fields@, marker, r->Ok_0.reads(inst.variant as int)->Some_0),
        r->Ok_0.item_read(inst) == Some(
            inst.fields@[r->Ok_0.reads(inst.variant as int)->Some_0],
        ),
{
}

/// The derivation of a struct follows the resolution of its field set: it
/// succeeds with the direct accessor of the selected field, and fails with
/// the same error, at no variant.
pub proof fn struct_derivation_follows_its_fields(
    set: FieldSet,
    marker: Seq<char>,
    o: Result<usize, ResolveError>,
    r: Result<Accessor, DeriveError>,
)
    requires
        fields_outcome(set, marker, o),
        derived(RecordShape::Struct(set), marker, r),
    ensures
        match o {
            Ok(i) => r is Ok && r->Ok_0 is Direct && r->Ok_0->Direct_0.index == i,
            Err(e) => r is Err && r->Err_0.kind == e && r->Err_0.variant is None,
        },
{
    match r {
        Ok(Accessor::Direct(f)) => fields_outcome_unique(set, marker, o, Ok(f.index)),
        Ok(Accessor::Dispatch(_)) => {},
        Err(e) => fields_outcome_unique(set, marker, o, Err(e.kind)),
    }
}

/// A tuple-like set of exactly one field resolves to that field, marked or
/// not.
pub proof fn single_unnamed_field_is_selected(
    fields: Seq<UnnamedField>,
    marker: Seq<char>,
    r: Result<usize, ResolveError>,
)
    requires
        fields.len() == 1,
        unnamed_outcome(fields, marker, r),
    ensures
        r == Ok::<usize, ResolveError>(0),
{
}

/// A tuple-like set in which two fields carry the marker attribute fails
/// with `Multiple`.
pub proof fn several_marked_unnamed_fail(
    fields: Seq<UnnamedField>,
    marker: Seq<char>,
    r: Result<usize, ResolveError>,
)
    requires
        several_marked(unnamed_marks(fields, marker)),
        unnamed_outcome(fields, marker, r),
    ensures
        r == Err::<usize, ResolveError>(ResolveError::Multiple),
{
}

/// A set of named fields in which two fields carry the marker attribute,
/// and no field up to the second of them is named as the marker, fails with
/// `Multiple`.
pub proof fn several_marked_named_fail(
    fields: Seq<NamedField>,
    marker: Seq<char>,
    r: Result<usize, ResolveError>,
)
    requires
        marked_twice_early(fields, marker),
        named_outcome(fields, marker, r),
    ensures
        r == Err::<usize, ResolveError>(ResolveError::Multiple),
{
}

/// A set without fields, of whatever kind, fails with `Nothing`.
pub proof fn empty_set_has_nothing(
    set: FieldSet,
    marker: Seq<char>,
    r: Result<usize, ResolveError>,
)
    requires
        set.count() == 0,
        fields_outcome(set, marker, r),
    ensures
        r == Err::<usize, ResolveError>(ResolveError::Nothing),
{
}

/// An enum without variants fails with `Nothing`, at no variant.
pub proof fn empty_enum_has_nothing(
    variants: Vec<Variant>,
    marker: Seq<char>,
    r: Result<Accessor, DeriveError>,
)
    requires
        variants@.len() == 0,
        derived(RecordShape::Enum(variants), marker, r),
    ensures
        r is Err,
        r->Err_0.kind == ResolveError::Nothing,
        r->Err_0.variant is None,
{
}

/// An enum with at least one variant derives if and only if each of its
/// variants resolves.
pub proof fn enum_derives_iff_variants_resolve(
    variants: Seq<Variant>,
    marker: Seq<char>,
    r: Result<Vec<Arm>, DeriveError>,
)
    requires
        dispatched(variants, marker, r),
    ensures
        r is Ok <==> variants.len() > 0 && all_resolve(variants, marker),
{
    match r {
        Ok(arms) => {
            assert forall|k: int| 0 <= k < variants.len() implies resolves(
                (#[trigger] variants[k]).fields,
                marker,
            ) by {
                resolves_iff_ok(variants[k].fields, marker, Ok(arms@[k].field.index));
            }
        },
        Err(e) => {
            if variants.len() > 0 {
                let k = e.variant->Some_0 as int;
                resolves_iff_ok(variants[k].fields, marker, Err(e.kind));
                assert(!resolves(variants[k].fields, marker));
            }
        },
    }
}

/// A dispatch has an arm for every variant of its enum and for nothing
/// else, and the arm of a variant reads the field that the variant resolves
/// to.
pub proof fn dispatch_covers_every_variant(
    variants: Vec<Variant>,
    marker: Seq<char>,
    acc: Accessor,
    k: int,
)
    requires
        derived(RecordShape::Enum(variants), marker, Ok(acc)),
    ensures
        acc.reads(k) is Some <==> 0 <= k < variants@.len(),
        0 <= k < variants@.len() ==> fields_outcome(
            variants@[k].fields,
            marker,
            Ok(acc->Dispatch_0@[k].field.index),
        ) && acc.reads(k) == Some(acc->Dispatch_0@[k].field.index as int),
{
}

/// The accessor of a shape returns, on a value that has the selected field,
/// that field: its range where it holds one, and its point where it holds a
/// point or a range, which answers with its start.
pub proof fn accessor_returns_selected_field(
    shape: RecordShape,
    marker: Seq<char>,
    acc: Accessor,
    inst: Instance,
    i: usize,
)
    requires
        derived(shape, marker, Ok(acc)),
        selects(shape, marker, inst.variant as int, i),
        i < inst.fields@.len(),
    ensures
        acc.item_read(inst) == Some(inst.fields@[i as int]),
        forall|l: Loc|
            inst.fields@[i as int] == Item::Loc(l) ==> acc.loc_read(inst) == Some(l)
                && acc.pos_read(inst) == Some(l.from),
        forall|p: Pos| inst.fields@[i as int] == Item::Pos(p) ==> acc.pos_read(inst) == Some(p),
{
    match shape {
        RecordShape::Struct(set) => {
            let f = acc->Direct_0;
            fields_outcome_unique(set, marker, Ok(i), Ok(f.index));
        },
        RecordShape::Enum(variants) => {
            let arms = acc->Dispatch_0;
            let k = inst.variant as int;
            assert(fields_outcome(variants@[k].fields, marker, Ok(arms@[k].field.index)));
            fields_outcome_unique(variants@[k].fields, marker, Ok(i), Ok(arms@[k].field.index));
        },
        RecordShape::Union => {},
    }
}

} // verus!
