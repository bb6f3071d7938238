//! What an accessor returns on a value: the behaviour of the derived method,
//! on a plain model of the value it is called on.

use vstd::prelude::*;
use crate::position::{GetLoc, GetPos};
use srcpos::{Loc, Pos};
use crate::synth::Accessor;

verus! {

/// What one field of a value holds, as far as the two traits see it.
#[derive(Clone, Copy, Debug, PartialEq, Eq)]
pub enum Item {
    /// A value whose `loc()` is this range.
    Loc(Loc),
    /// A value whose `pos()` is this point.
    Pos(Pos),
    /// A value that has neither.
    Other,
}

/// A value of a derived type: the index of its variant (0 for a struct) and
/// its fields in declaration order.
#[derive(Clone, Debug, PartialEq, Eq)]
pub struct Instance {
    pub variant: usize,
    pub fields: Vec<Item>,
}

impl Item {
    /// The range that the field answers with, if it has one.
    pub open spec fn loc_of(self) -> Option<Loc> {
        match self {
            Item::Loc(l) => Some(l.loc_of()),
            _ => None,
        }
    }

    /// The point that the field answers with, if it has one: a point is
    /// itself, and a range answers with its start.
    pub open spec fn pos_of(self) -> Option<Pos> {
        match self {
            Item::Loc(l) => Some(l.pos_of()),
            Item::Pos(p) => Some(p.pos_of()),
            Item::Other => None,
        }
    }

    /// The range that the field answers with, if it has one.
    pub fn loc(&self) -> (r: Option<Loc>)
        ensures
            r == self.loc_of(),
    {
        match self {
            Item::Loc(l) => Some(l.loc()),
            _ => None,
        }
    }

    /// The point that the field answers with, if it has one.
    pub fn pos(&self) -> (r: Option<Pos>)
        ensures
            r == self.pos_of(),
    {
        match self {
            Item::Loc(l) => Some(l.pos()),
            Item::Pos(p) => Some(p.pos()),
            Item::Other => None,
        }
    }
}

impl Accessor {
    /// The index of the field that the accessor reads in a value of the
    /// given variant; none where a dispatch has no arm for the variant.
    pub open spec fn reads(self, variant: int) -> Option<int> {
        match self {
            Accessor::Direct(f) => Some(f.index as int),
            Accessor::Dispatch(arms) => if 0 <= variant < arms@.len() {
                Some(arms@[variant].field.index as int)
            } else {
                None
            },
        }
    }

    /// The field of `inst` that the accessor delegates to, if the value has
    /// it.
    pub open spec fn item_read(self, inst: Instance) -> Option<Item> {
        match self.reads(inst.variant as int) {
            Some(i) => if i < inst.fields@.len() {
                Some(inst.fields@[i])
            } else {
                None
            },
            None => None,
        }
    }

    /// What the derived `loc()` returns on `inst`: the range of the field
    /// that the accessor delegates to.
    pub open spec fn loc_read(self, inst: Instance) -> Option<Loc> {
        match self.item_read(inst) {
            Some(item) => item.loc_of(),
            None => None,
        }
    }

    /// What the derived `pos()` returns on `inst`: the point of the field
    /// that the accessor delegates to.
    pub open spec fn pos_read(self, inst: Instance) -> Option<Pos> {
        match self.item_read(inst) {
            Some(item) => item.pos_of(),
            None => None,
        }
    }

    /// The index of the field that the accessor reads in a value of the
    /// given variant.
    pub fn field_in(&self, variant: usize) -> (r: Option<usize>)
        ensures
            match r {
                Some(i) => self.reads(variant as int) == Some(i as int),
                None => self.reads(variant as int) is None,
            },
    {
        match self {
            Accessor::Direct(f) => Some(f.index),
            Accessor::Dispatch(arms) => if variant < arms.len() {
                Some(arms[variant].field.index)
            } else {
                None
            },
        }
    }

    /// The field of `inst` that the accessor delegates to.
    pub fn item_in(&self, inst: &Instance) -> (r: Option<Item>)
        ensures
            r == self.item_read(*inst),
    {
        match self.field_in(inst.variant) {
            Some(i) => if i < inst.fields.len() {
                Some(inst.fields[i])
            } else {
                None
            },
            None => None,
        }
    }

    /// What the derived `loc()` returns on `inst`: the range of the field
    /// that the accessor reads. None where the value does not fit the
    /// accessor or the field has no range.
    pub fn get_loc(&self, inst: &Instance) -> (r: Option<Loc>)
        ensures
            r == self.loc_read(*inst),
    {
        match self.item_in(inst) {
            Some(item) => item.loc(),
            None => None,
        }
    }

    /// What the derived `pos()` returns on `inst`: the point of the field
    /// that the accessor reads. None where the value does not fit the
    /// accessor or the field has no point.
    pub fn get_pos(&self, inst: &Instance) -> (r: Option<Pos>)
        ensures
            r == self.pos_read(*inst),
    {
        match self.item_in(inst) {
            Some(item) => item.pos(),
            None => None,
        }
    }
}

} // verus!
