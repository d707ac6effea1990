//! The kinds of message component.

use vstd::prelude::*;

verus! {

pub const ACTION_ROW: u8 = 1;

pub const BUTTON: u8 = 2;

pub const STRING_SELECT: u8 = 3;

} // verus!
