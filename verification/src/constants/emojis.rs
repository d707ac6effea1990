//! The symbols that the bot's messages are decorated with.

use vstd::prelude::*;

verus! {

pub const PING: &'static str = "🏓";

pub const INFO: &'static str = "ℹ️";

pub const HELP: &'static str = "📖";

pub const RUST: &'static str = "🦀";

pub const WRENCH: &'static str = "🔧";

pub const SPARKLE: &'static str = "✨";

pub const FIRE: &'static str = "🔥";

pub const ROBOT: &'static str = "🤖";

pub const SUCCESS: &'static str = "✅";

pub const ERROR: &'static str = "❌";

pub const WARNING: &'static str = "⚠️";

pub const LOADING: &'static str = "⏳";

pub const QUESTION: &'static str = "❓";

pub const EIGHT_BALL: &'static str = "🎱";

pub const DICE: &'static str = "🎲";

pub const COIN: &'static str = "🪙";

pub const CRYSTAL: &'static str = "🔮";

pub const TROPHY: &'static str = "🏆";

pub const STAR: &'static str = "⭐";

pub const BOOK: &'static str = "📖";

pub const FOLDER: &'static str = "📁";

pub const MUSIC: &'static str = "🎵";

pub const SETTINGS: &'static str = "⚙️";

pub const SHIELD: &'static str = "🛡️";

pub const SWORD: &'static str = "⚔️";

pub const CHART: &'static str = "📊";

pub const LINK: &'static str = "🔗";

pub const CLOCK: &'static str = "🕐";

pub const BOLT: &'static str = "⚡";

pub const HAMMER: &'static str = "🔨";

pub const LOCK: &'static str = "🔒";

pub const UNLOCK: &'static str = "🔓";

pub const EYE: &'static str = "👁️";

} // verus!
