//! Accessor synthesis: from a type's shape to the accessor that a derive
//! gives it, or the diagnostic that it reports.

use vstd::prelude::*;
use crate::laws::{enum_derives_iff_variants_resolve, resolves_iff_ok};
use crate::resolve::{fields_outcome, resolve_fields, resolved, resolves};
use crate::shape::{FieldRef, RecordShape, ResolveError, Target, Variant};

verus! {

/// One arm of an enum's dispatch: the variant it matches, the field it binds
/// and the number of fields that the variant has.
#[derive(Clone, Debug, PartialEq, Eq)]
pub struct Arm {
    pub variant: String,
    pub field: FieldRef,
    pub arity: usize,
}

/// The accessor of a type: what the body of its `loc` or `pos` reads.
#[derive(Clone, Debug, PartialEq, Eq)]
pub enum Accessor {
    /// A struct: the accessor delegates to the field `self.<field>`.
    Direct(FieldRef),
    /// An enum: one arm per variant, in declaration order; each binds the
    /// selected field, discards the others and delegates to the bound one.
    Dispatch(Vec<Arm>),
}

/// A failed derivation: why, and the variant at fault where the type is an
/// enum and one of its variants did not resolve.
#[derive(Clone, Copy, Debug, PartialEq, Eq)]
pub struct DeriveError {
    pub kind: ResolveError,
    pub variant: Option<usize>,
}

/// The arm is the one that belongs to the variant.
pub open spec fn arm_for(v: Variant, marker: Seq<char>, arm: Arm) -> bool {
    &&& arm.variant@ == v.name@
    &&& arm.arity == v.fields.count()
    &&& resolved(v.fields, marker, Ok(arm.field))
}

/// Every variant's field set resolves.
pub open spec fn all_resolve(variants: Seq<Variant>, marker: Seq<char>) -> bool {
    forall|k: int| 0 <= k < variants.len() ==> resolves((#[trigger] variants[k]).fields, marker)
}

/// The shape is one that a derivation succeeds on: a struct whose field set
/// resolves, or an enum with at least one variant, each of which resolves.
pub open spec fn derivable(shape: RecordShape, marker: Seq<char>) -> bool {
    match shape {
        RecordShape::Struct(set) => resolves(set, marker),
        RecordShape::Enum(variants) => variants@.len() > 0 && all_resolve(variants@, marker),
        RecordShape::Union => false,
    }
}

/// What the derivation of an enum answers on its variants.
///
/// An enum without variants has nothing to read. Any other enum gets one arm
/// for each variant, in declaration order, or the error of its first variant
/// that does not resolve, with that variant's index.
pub open spec fn dispatched(
    variants: Seq<Variant>,
    marker: Seq<char>,
    r: Result<Vec<Arm>, DeriveError>,
) -> bool {
    match r {
        Ok(arms) => {
            &&& variants.len() > 0
            &&& arms@.len() == variants.len()
            &&& forall|k: int|
                0 <= k < variants.len() ==> arm_for(variants[k], marker, #[trigger] arms@[k])
        },
        Err(e) => if variants.len() == 0 {
            e.kind == ResolveError::Nothing && e.variant is None
        } else {
            &&& e.variant is Some
            &&& e.variant->Some_0 < variants.len()
            &&& forall|j: int|
                0 <= j < e.variant->Some_0 ==> resolves((#[trigger] variants[j]).fields, marker)
            &&& fields_outcome(variants[e.variant->Some_0 as int].fields, marker, Err(e.kind))
        },
    }
}

/// What a derivation answers on a shape.
///
/// A struct gets the direct accessor of the field that its field set
/// resolves to, or that resolution's error. An enum gets the dispatch over
/// its variants, or the error of its first variant that does not resolve. A
/// union is not supported.
pub open spec fn derived(
    shape: RecordShape,
    marker: Seq<char>,
    r: Result<Accessor, DeriveError>,
) -> bool {
    match shape {
        RecordShape::Struct(set) => match r {
            Ok(Accessor::Direct(f)) => resolved(set, marker, Ok(f)),
            Ok(Accessor::Dispatch(_)) => false,
            Err(e) => e.variant is None && resolved(set, marker, Err(e.kind)),
        },
        RecordShape::Enum(variants) => match r {
            Ok(Accessor::Dispatch(arms)) => dispatched(variants@, marker, Ok(arms)),
            Ok(Accessor::Direct(_)) => false,
            Err(e) => dispatched(variants@, marker, Err(e)),
        },
        RecordShape::Union => match r {
            Ok(_) => false,
            Err(e) => e.kind == ResolveError::Unsupported && e.variant is None,
        },
    }
}

/// The text of a diagnostic.
pub open spec fn message_text(kind: ResolveError, target: Target, in_variant: bool) -> Seq<char> {
    match (kind, target, in_variant) {
        (ResolveError::Unsupported, _, _) => "Does not support union"@,
        (ResolveError::Nothing, _, false) => "There is nothing to get"@,
        (ResolveError::Nothing, Target::Loc, true) => "[GetLoc] There is nothing to get"@,
        (ResolveError::Nothing, Target::Pos, true) => "[GetPos] There is nothing to get"@,
        (ResolveError::Multiple, Target::Loc, false) => "Cannot have multiple loc"@,
        (ResolveError::Multiple, Target::Pos, false) => "Cannot have multiple pos"@,
        (ResolveError::Multiple, Target::Loc, true) => "[GetLoc] Cannot have multiple loc"@,
        (ResolveError::Multiple, Target::Pos, true) => "[GetPos] Cannot have multiple pos"@,
        (ResolveError::NotFound, Target::Loc, false) => "Not found field loc"@,
        (ResolveError::NotFound, Target::Pos, false) => "Not found field pos"@,
        (ResolveError::NotFound, Target::Loc, true) => "[GetLoc] Not found field loc"@,
        (ResolveError::NotFound, Target::Pos, true) => "[GetPos] Not found field pos"@,
    }
}

impl DeriveError {
    /// The diagnostic's text. An error inside an enum's variant is prefixed
    /// with the derived trait's name in square brackets.
    pub fn message(&self, target: Target) -> (r: String)
        ensures
            r@ == message_text(self.kind, target, self.variant is Some),
    {
        let text: &str = match (self.kind, target, self.variant.is_some()) {
            (ResolveError::Unsupported, _, _) => "Does not support union",
            (ResolveError::Nothing, _, false) => "There is nothing to get",
            (ResolveError::Nothing, Target::Loc, true) => "[GetLoc] There is nothing to get",
            (ResolveError::Nothing, Target::Pos, true) => "[GetPos] There is nothing to get",
            (ResolveError::Multiple, Target::Loc, false) => "Cannot have multiple loc",
            (ResolveError::Multiple, Target::Pos, false) => "Cannot have multiple pos",
            (ResolveError::Multiple, Target::Loc, true) => "[GetLoc] Cannot have multiple loc",
            (ResolveError::Multiple, Target::Pos, true) => "[GetPos] Cannot have multiple pos",
            (ResolveError::NotFound, Target::Loc, false) => "Not found field loc",
            (ResolveError::NotFound, Target::Pos, false) => "Not found field pos",
            (ResolveError::NotFound, Target::Loc, true) => "[GetLoc] Not found field loc",
            (ResolveError::NotFound, Target::Pos, true) => "[GetPos] Not found field pos",
        };
        text.to_owned()
    }
}

/// The pattern of a tuple-like variant's arm: for each of its `arity`
/// fields, whether the arm binds it. Only the field at `index` is bound; the
/// others are discarded.
pub fn binders(arity: usize, index: usize) -> (r: Vec<bool>)
    ensures
        r@.len() == arity,
        forall|i: int| 0 <= i < arity ==> #[trigger] r@[i] == (i == index),
{
    let mut r: Vec<bool> = Vec::new();
    let mut i: usize = 0;
    while i < arity
        invariant
            i <= arity,
            r@.len() == i,
            forall|k: int| 0 <= k < i ==> #[trigger] r@[k] == (k == index),
        decreases arity - i,
    {
        r.push(i == index);
        i += 1;
    }
    r
}

/// A variant that has its arm resolves.
pub proof fn arm_resolves(v: Variant, marker: Seq<char>, arm: Arm)
    requires
        arm_for(v, marker, arm),
    ensures
        resolves(v.fields, marker),
{
    resolves_iff_ok(v.fields, marker, Ok(arm.field.index));
}

/// Resolves every variant of an enum in declaration order and collects
/// their arms, stopping at the first variant that does not resolve.
pub fn dispatch(variants: &Vec<Variant>, marker: &String) -> (r: Result<Vec<Arm>, DeriveError>)
    ensures
        dispatched(variants@, marker@, r),
        r is Ok <==> variants@.len() > 0 && all_resolve(variants@, marker@),
{
    if variants.len() == 0 {
        return Err(DeriveError { kind: ResolveError::Nothing, variant: None });
    }
    let mut arms: Vec<Arm> = Vec::new();
    let mut k: usize = 0;
    while k < variants.len()
        invariant
            k <= variants.len(),
            arms@.len() == k,
            forall|j: int| 0 <= j < k ==> arm_for(variants@[j], marker@, #[trigger] arms@[j]),
        decreases variants.len() - k,
    {
        let v = &variants[k];
        match resolve_fields(&v.fields, marker) {
            Ok(f) => {
                arms.push(Arm { variant: v.name.clone(), field: f, arity: v.fields.len() });
            },
            Err(kind) => {
                let e = DeriveError { kind, variant: Some(k) };
                proof {
                    assert forall|j: int| 0 <= j < k implies resolves(
                        (#[trigger] variants@[j]).fields,
                        marker@,
                    ) by {
                        arm_resolves(variants@[j], marker@, arms@[j]);
                    }
                    enum_derives_iff_variants_resolve(variants@, marker@, Err(e));
                }
                return Err(e);
            },
        }
        k += 1;
    }
    proof {
        enum_derives_iff_variants_resolve(variants@, marker@, Ok(arms));
    }
    Ok(arms)
}

/// Derives the accessor of a type of the given shape, for the fields that
/// `marker` designates.
pub fn synthesize(shape: &RecordShape, marker: &String) -> (r: Result<Accessor, DeriveError>)
    ensures
        derived(*shape, marker@, r),
        r is Ok <==> derivable(*shape, marker@),
{
    match shape {
        RecordShape::Struct(set) => match resolve_fields(set, marker) {
            Ok(f) => Ok(Accessor::Direct(f)),
            Err(kind) => Err(DeriveError { kind, variant: None }),
        },
        RecordShape::Enum(variants) => match dispatch(variants, marker) {
            Ok(arms) => Ok(Accessor::Dispatch(arms)),
            Err(e) => Err(e),
        },
        RecordShape::Union => Err(DeriveError { kind: ResolveError::Unsupported, variant: None }),
    }
}

/// Derives the `GetLoc` accessor: the field named `loc`, or marked `#[loc]`.
pub fn derive_get_loc(shape: &RecordShape) -> (r: Result<Accessor, DeriveError>)
    ensures
        derived(*shape, Target::Loc.marker_name(), r),
        r is Ok <==> derivable(*shape, Target::Loc.marker_name()),
{
    let marker = Target::Loc.marker();
    synthesize(shape, &marker)
}

/// Derives the `GetPos` accessor: the field named `pos`, or marked `#[pos]`.
pub fn derive_get_pos(shape: &RecordShape) -> (r: Result<Accessor, DeriveError>)
    ensures
        derived(*shape, Target::Pos.marker_name(), r),
        r is Ok <==> derivable(*shape, Target::Pos.marker_name()),
{
    let marker = Target::Pos.marker();
    synthesize(shape, &marker)
}

} // verus!
