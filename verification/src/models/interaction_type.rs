//! The kinds of interaction.

use vstd::prelude::*;

verus! {

pub const PING: u8 = 1;

pub const APPLICATION_COMMAND: u8 = 2;

pub const MESSAGE_COMPONENT: u8 = 3;

} // verus!
