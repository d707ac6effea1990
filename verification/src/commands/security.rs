//! The commands on the whitelist, the admins and the detector.

pub mod admin;
pub mod antinuke;
pub mod whitelist;

use crate::text::{contains, has_prefix, has_substring, starts_with, str_eq};
use vstd::prelude::*;

verus! {

/// The handlers of the security commands.
#[derive(Clone, Copy, PartialEq, Eq, Structural, Debug)]
pub enum SecurityCommand {
    Whitelist,
    Admin,
    Antinuke,
}

/// The handler of the security command that goes by the name `cmd`.
pub open spec fn security_named(cmd: Seq<char>) -> Option<SecurityCommand> {
    if cmd == "whitelist"@ || cmd == "wl"@ || cmd == "wlist"@ || cmd == "unwhitelist"@
        || cmd == "uwl"@ {
        Some(SecurityCommand::Whitelist)
    } else if cmd == "admin"@ || cmd == "adm"@ || cmd == "extraowner"@ || cmd == "eo"@ {
        Some(SecurityCommand::Admin)
    } else if cmd == "security"@ || cmd == "s"@ || cmd == "sec"@ || cmd == "antinuke"@
        || cmd == "nightmode"@ || cmd == "nm"@ {
        Some(SecurityCommand::Antinuke)
    } else {
        None
    }
}

/// Finds the handler of a security command.
pub fn security_cmd(cmd: &str) -> (c: Option<SecurityCommand>)
    ensures
        c == security_named(cmd@),
{
    if str_eq(cmd, "whitelist") || str_eq(cmd, "wl") || str_eq(cmd, "wlist")
        || str_eq(cmd, "unwhitelist") || str_eq(cmd, "uwl") {
        Some(SecurityCommand::Whitelist)
    } else if str_eq(cmd, "admin") || str_eq(cmd, "adm") || str_eq(cmd, "extraowner")
        || str_eq(cmd, "eo") {
        Some(SecurityCommand::Admin)
    } else if str_eq(cmd, "security") || str_eq(cmd, "s") || str_eq(cmd, "sec")
        || str_eq(cmd, "antinuke") || str_eq(cmd, "nightmode") || str_eq(cmd, "nm") {
        Some(SecurityCommand::Antinuke)
    } else {
        None
    }
}

/// The panel that the component with the id `custom_id` belongs to.
pub open spec fn panel_of(custom_id: Seq<char>) -> Option<SecurityCommand> {
    if has_prefix(custom_id, "antinuke_"@) || has_prefix(custom_id, "toggle_"@) || has_substring(
        custom_id,
        "mass_"@,
    ) {
        Some(SecurityCommand::Antinuke)
    } else if has_prefix(custom_id, "whitelist_"@) {
        Some(SecurityCommand::Whitelist)
    } else if has_prefix(custom_id, "admin_"@) {
        Some(SecurityCommand::Admin)
    } else {
        None
    }
}

/// Finds the panel that serves an interaction, by the id of its component.
pub fn handle_interaction(custom_id: &str) -> (panel: Option<SecurityCommand>)
    ensures
        panel == panel_of(custom_id@),
{
    if starts_with(custom_id, "antinuke_") || starts_with(custom_id, "toggle_") || contains(
        custom_id,
        "mass_",
    ) {
        Some(SecurityCommand::Antinuke)
    } else if starts_with(custom_id, "whitelist_") {
        Some(SecurityCommand::Whitelist)
    } else if starts_with(custom_id, "admin_") {
        Some(SecurityCommand::Admin)
    } else {
        None
    }
}

} // verus!
