//! The capabilities that a session may ask for, one bit each.

use vstd::prelude::*;

verus! {

pub const GUILDS: u32 = 0x0001;

pub const GUILD_MESSAGES: u32 = 0x0200;

pub const DIRECT_MESSAGES: u32 = 0x1000;

pub const MESSAGE_CONTENT: u32 = 0x8000;

} // verus!
