//! The decisions of pattern traversal: which pattern, row and channel
//! indices name something that exists, and the raw cell fields.

use vstd::prelude::*;

verus! {

/// The field index of a pattern cell, for reading its raw, formatted or
/// highlighted content.
#[derive(Debug, Clone, Copy, PartialEq, Eq, Structural)]
pub enum ModuleCommandIndex {
    Note,
    Instrument,
    VolumeEffect,
    Effect,
    Volume,
    Parameter,
}

/// The native number of each cell field.
pub open spec fn command_index_value(c: ModuleCommandIndex) -> i32 {
    match c {
        ModuleCommandIndex::Note => 0,
        ModuleCommandIndex::Instrument => 1,
        ModuleCommandIndex::VolumeEffect => 2,
        ModuleCommandIndex::Effect => 3,
        ModuleCommandIndex::Volume => 4,
        ModuleCommandIndex::Parameter => 5,
    }
}

impl ModuleCommandIndex {
    /// The native number of this cell field.
    pub fn value(&self) -> (r: i32)
        ensures
            r == command_index_value(*self),
    {
        match *self {
            ModuleCommandIndex::Note => 0,
            ModuleCommandIndex::Instrument => 1,
            ModuleCommandIndex::VolumeEffect => 2,
            ModuleCommandIndex::Effect => 3,
            ModuleCommandIndex::Volume => 4,
            ModuleCommandIndex::Parameter => 5,
        }
    }
}

/// Reads the pattern number that the native library gives for an order
/// position, where a negative number means that no pattern stands there.
pub fn pattern_at_order(pattern_num: i32) -> (r: Option<i32>)
    ensures
        r == if pattern_num < 0 {
            None::<i32>
        } else {
            Some(pattern_num)
        },
{
    if pattern_num < 0 {
        None
    } else {
        Some(pattern_num)
    }
}

/// Checks an index (of a pattern, a row or a channel) against the number of
/// such items, giving it back where it names one of them.
pub fn index_within(index: i32, count: i32) -> (r: Option<i32>)
    ensures
        r == if 0 <= index && index < count {
            Some(index)
        } else {
            None::<i32>
        },
{
    if index < 0 || index >= count {
        None
    } else {
        Some(index)
    }
}

} // verus!
