//! The decisions of a bot that guards communities against destructive
//! actions in bulk: the gateway session, the router of events, the store of
//! policies and trust sets, the detector with its sliding windows, and the
//! punishment of offenders, together with what the bot's commands decide.
//!
//! Nothing here touches the network, the disk or the clock. Whoever does
//! reports what happened and is told what to do next.

pub mod antinuke;
pub mod commands;
pub mod constants;
pub mod db;
pub mod gateway;
pub mod handler;
pub mod json;
pub mod models;
pub mod rest;
pub mod rules;
pub mod text;
pub mod window;
