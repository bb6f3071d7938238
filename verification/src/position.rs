//! The traits that read a source range or a source point off a value.
//!
//! Ranges and points are `srcpos::Loc` and `srcpos::Pos`. Both are plain
//! records with public fields, and are declared here so that contracts can
//! speak of those fields.

use vstd::prelude::*;
use srcpos::{Loc, Pos};

verus! {

/// Declares `srcpos::Pos`, a point in source text, with its two public
/// fields: `line`, and `column`, the character within the line.
#[verifier::external_type_specification]
pub struct ExPos(srcpos::Pos);

/// Declares `srcpos::Loc`, a range of source text, with its two public
/// fields: the points `from` and `to`.
#[verifier::external_type_specification]
pub struct ExLoc(srcpos::Loc);

/// A value that knows the source range it came from.
pub trait GetLoc {
    /// The range that `loc` returns.
    spec fn loc_of(&self) -> Loc;

    /// The source range of this value.
    fn loc(&self) -> (r: Loc)
        ensures
            r == self.loc_of(),
    ;
}

/// A value that knows the source point it came from.
pub trait GetPos {
    /// The point that `pos` returns.
    spec fn pos_of(&self) -> Pos;

    /// The source point of this value.
    fn pos(&self) -> (r: Pos)
        ensures
            r == self.pos_of(),
    ;
}

impl GetLoc for Loc {
    /// A range is its own range.
    open spec fn loc_of(&self) -> Loc {
        *self
    }

    fn loc(&self) -> (r: Loc) {
        *self
    }
}

impl GetPos for Pos {
    /// A point is its own point.
    open spec fn pos_of(&self) -> Pos {
        *self
    }

    fn pos(&self) -> (r: Pos) {
        *self
    }
}

impl GetPos for Loc {
    /// A range answers with the point where it starts.
    open spec fn pos_of(&self) -> Pos {
        self.from
    }

    fn pos(&self) -> (r: Pos) {
        self.from
    }
}

impl<T: GetLoc> GetLoc for &T {
    /// A reference answers as the value behind it.
    open spec fn loc_of(&self) -> Loc {
        (**self).loc_of()
    }

    fn loc(&self) -> (r: Loc) {
        (**self).loc()
    }
}

impl<T: GetLoc> GetLoc for &mut T {
    /// A mutable reference answers as the value behind it.
    open spec fn loc_of(&self) -> Loc {
        (**self).loc_of()
    }

    fn loc(&self) -> (r: Loc) {
        (**self).loc()
    }
}

impl<T: GetPos> GetPos for &mut T {
    /// A mutable reference answers as the value behind it.
    open spec fn pos_of(&self) -> Pos {
        (**self).pos_of()
    }

    fn pos(&self) -> (r: Pos) {
        (**self).pos()
    }
}

impl<T: GetPos> GetPos for &T {
    /// A reference answers as the value behind it.
    open spec fn pos_of(&self) -> Pos {
        (**self).pos_of()
    }

    fn pos(&self) -> (r: Pos) {
        (**self).pos()
    }
}

} // verus!
