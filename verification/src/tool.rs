//! A hand-kept sample of the kind of enumeration this compiler emits: the
//! tool family, as source rather than generated text.  The emitted units
//! also carry numeric conversion derives and numeric accessors; those are
//! not carried here.

use vstd::prelude::*;

verus! {

/// The kinds of tool.
#[derive(Copy, Clone, Debug, PartialEq, Eq, Hash, PartialOrd, Ord)]
pub enum Tool {
    Axe,
    Pickaxe,
    Shovel,
    Hoe,
    Sword,
    Shears,
}

/// The materials a tool can be made of, ordered from weakest to rarest.
#[derive(Copy, Clone, Debug, PartialEq, Eq, Hash, PartialOrd, Ord)]
pub enum ToolMaterial {
    Wooden,
    Stone,
    Iron,
    Diamond,
    Gold,
}

} // verus!
