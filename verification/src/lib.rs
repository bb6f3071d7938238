//! Field resolution and accessor synthesis for the `GetLoc` and `GetPos`
//! derives, over a plain description of a type's declared shape.
//!
//! A derive inspects a struct or enum, selects in each field set the one field
//! that bears the source location (or position), and produces an accessor that
//! reads it. Here the selection and the accessor are plain data; every
//! function carries a contract that Verus proves.

pub mod position;
pub mod shape;
pub mod resolve;
pub mod synth;
pub mod eval;
pub mod laws;

pub use position::{GetLoc, GetPos};
pub use srcpos::{Loc, Pos};
pub use synth::{derive_get_loc, derive_get_pos};
