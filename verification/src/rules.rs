use crate::text::str_eq;
use vstd::prelude::*;

verus! {

/// How many rules a community's policy holds.
pub const RULE_COUNT: usize = 31;

/// One toggle of a community's security policy.
///
/// The variants stand in the order of the persisted columns; [`Rule::index`]
/// gives that position.
#[derive(Clone, Copy, PartialEq, Eq, Structural, Debug, Hash)]
pub enum Rule {
    AntiBan,
    AntiUnban,
    AntiKick,
    AntiBot,
    AntiPrune,
    AntiChannelCreate,
    AntiChannelUpdate,
    AntiChannelDelete,
    AntiRoleCreate,
    AntiRoleUpdate,
    AntiRoleDelete,
    AntiMemberRoleUpdate,
    AntiEveryonePing,
    AntiServerUpdate,
    AntiEmojiCreate,
    AntiEmojiUpdate,
    AntiEmojiDelete,
    AntiStickerCreate,
    AntiStickerUpdate,
    AntiStickerDelete,
    AntiWebhookCreate,
    AntiWebhookUpdate,
    AntiWebhookDelete,
    AntiAutomodCreate,
    AntiAutomodUpdate,
    AntiAutomodDelete,
    AntiGuildEventCreate,
    AntiGuildEventUpdate,
    AntiGuildEventDelete,
    AutoRecovery,
    ThreadLockEnabled,
}

impl Rule {
    /// Position of the rule among the persisted columns.
    pub open spec fn index(self) -> int {
        match self {
            Rule::AntiBan => 0,
            Rule::AntiUnban => 1,
            Rule::AntiKick => 2,
            Rule::AntiBot => 3,
            Rule::AntiPrune => 4,
            Rule::AntiChannelCreate => 5,
            Rule::AntiChannelUpdate => 6,
            Rule::AntiChannelDelete => 7,
            Rule::AntiRoleCreate => 8,
            Rule::AntiRoleUpdate => 9,
            Rule::AntiRoleDelete => 10,
            Rule::AntiMemberRoleUpdate => 11,
            Rule::AntiEveryonePing => 12,
            Rule::AntiServerUpdate => 13,
            Rule::AntiEmojiCreate => 14,
            Rule::AntiEmojiUpdate => 15,
            Rule::AntiEmojiDelete => 16,
            Rule::AntiStickerCreate => 17,
            Rule::AntiStickerUpdate => 18,
            Rule::AntiStickerDelete => 19,
            Rule::AntiWebhookCreate => 20,
            Rule::AntiWebhookUpdate => 21,
            Rule::AntiWebhookDelete => 22,
            Rule::AntiAutomodCreate => 23,
            Rule::AntiAutomodUpdate => 24,
            Rule::AntiAutomodDelete => 25,
            Rule::AntiGuildEventCreate => 26,
            Rule::AntiGuildEventUpdate => 27,
            Rule::AntiGuildEventDelete => 28,
            Rule::AutoRecovery => 29,
            Rule::ThreadLockEnabled => 30,
        }
    }

    /// The rule at position `i`; positions outside `0..RULE_COUNT` give the
    /// last rule.
    pub open spec fn at(i: int) -> Rule {
        if i == 0 {
            Rule::AntiBan
        } else if i == 1 {
            Rule::AntiUnban
        } else if i == 2 {
            Rule::AntiKick
        } else if i == 3 {
            Rule::AntiBot
        } else if i == 4 {
            Rule::AntiPrune
        } else if i == 5 {
            Rule::AntiChannelCreate
        } else if i == 6 {
            Rule::AntiChannelUpdate
        } else if i == 7 {
            Rule::AntiChannelDelete
        } else if i == 8 {
            Rule::AntiRoleCreate
        } else if i == 9 {
            Rule::AntiRoleUpdate
        } else if i == 10 {
            Rule::AntiRoleDelete
        } else if i == 11 {
            Rule::AntiMemberRoleUpdate
        } else if i == 12 {
            Rule::AntiEveryonePing
        } else if i == 13 {
            Rule::AntiServerUpdate
        } else if i == 14 {
            Rule::AntiEmojiCreate
        } else if i == 15 {
            Rule::AntiEmojiUpdate
        } else if i == 16 {
            Rule::AntiEmojiDelete
        } else if i == 17 {
            Rule::AntiStickerCreate
        } else if i == 18 {
            Rule::AntiStickerUpdate
        } else if i == 19 {
            Rule::AntiStickerDelete
        } else if i == 20 {
            Rule::AntiWebhookCreate
        } else if i == 21 {
            Rule::AntiWebhookUpdate
        } else if i == 22 {
            Rule::AntiWebhookDelete
        } else if i == 23 {
            Rule::AntiAutomodCreate
        } else if i == 24 {
            Rule::AntiAutomodUpdate
        } else if i == 25 {
            Rule::AntiAutomodDelete
        } else if i == 26 {
            Rule::AntiGuildEventCreate
        } else if i == 27 {
            Rule::AntiGuildEventUpdate
        } else if i == 28 {
            Rule::AntiGuildEventDelete
        } else if i == 29 {
            Rule::AutoRecovery
        } else {
            Rule::ThreadLockEnabled
        }
    }

    /// The column name under which the rule is persisted and addressed.
    pub open spec fn spec_name(self) -> Seq<char> {
        match self {
            Rule::AntiBan => "anti_ban"@,
            Rule::AntiUnban => "anti_unban"@,
            Rule::AntiKick => "anti_kick"@,
            Rule::AntiBot => "anti_bot"@,
            Rule::AntiPrune => "anti_prune"@,
            Rule::AntiChannelCreate => "anti_channel_create"@,
            Rule::AntiChannelUpdate => "anti_channel_update"@,
            Rule::AntiChannelDelete => "anti_channel_delete"@,
            Rule::AntiRoleCreate => "anti_role_create"@,
            Rule::AntiRoleUpdate => "anti_role_update"@,
            Rule::AntiRoleDelete => "anti_role_delete"@,
            Rule::AntiMemberRoleUpdate => "anti_member_role_update"@,
            Rule::AntiEveryonePing => "anti_everyone_ping"@,
            Rule::AntiServerUpdate => "anti_server_update"@,
            Rule::AntiEmojiCreate => "anti_emoji_create"@,
            Rule::AntiEmojiUpdate => "anti_emoji_update"@,
            Rule::AntiEmojiDelete => "anti_emoji_delete"@,
            Rule::AntiStickerCreate => "anti_sticker_create"@,
            Rule::AntiStickerUpdate => "anti_sticker_update"@,
            Rule::AntiStickerDelete => "anti_sticker_delete"@,
            Rule::AntiWebhookCreate => "anti_webhook_create"@,
            Rule::AntiWebhookUpdate => "anti_webhook_update"@,
            Rule::AntiWebhookDelete => "anti_webhook_delete"@,
            Rule::AntiAutomodCreate => "anti_automod_create"@,
            Rule::AntiAutomodUpdate => "anti_automod_update"@,
            Rule::AntiAutomodDelete => "anti_automod_delete"@,
            Rule::AntiGuildEventCreate => "anti_guild_event_create"@,
            Rule::AntiGuildEventUpdate => "anti_guild_event_update"@,
            Rule::AntiGuildEventDelete => "anti_guild_event_delete"@,
            Rule::AutoRecovery => "auto_recovery"@,
            Rule::ThreadLockEnabled => "thread_lock_enabled"@,
        }
    }

    /// `index` and `at` are inverse to each other on `0..RULE_COUNT`.
    pub proof fn lemma_index_at(self)
        ensures
            0 <= self.index() < RULE_COUNT,
            Rule::at(self.index()) == self,
    {
    }

    /// Every position below `RULE_COUNT` is the index of the rule found there.
    pub proof fn lemma_at_index(i: int)
        requires
            0 <= i < RULE_COUNT,
        ensures
            Rule::at(i).index() == i,
    {
    }

    /// Position of the rule among the persisted columns.
    pub fn ordinal(&self) -> (i: usize)
        ensures
            i == self.index(),
            i < RULE_COUNT,
    {
        match self {
            Rule::AntiBan => 0,
            Rule::AntiUnban => 1,
            Rule::AntiKick => 2,
            Rule::AntiBot => 3,
            Rule::AntiPrune => 4,
            Rule::AntiChannelCreate => 5,
            Rule::AntiChannelUpdate => 6,
            Rule::AntiChannelDelete => 7,
            Rule::AntiRoleCreate => 8,
            Rule::AntiRoleUpdate => 9,
            Rule::AntiRoleDelete => 10,
            Rule::AntiMemberRoleUpdate => 11,
            Rule::AntiEveryonePing => 12,
            Rule::AntiServerUpdate => 13,
            Rule::AntiEmojiCreate => 14,
            Rule::AntiEmojiUpdate => 15,
            Rule::AntiEmojiDelete => 16,
            Rule::AntiStickerCreate => 17,
            Rule::AntiStickerUpdate => 18,
            Rule::AntiStickerDelete => 19,
            Rule::AntiWebhookCreate => 20,
            Rule::AntiWebhookUpdate => 21,
            Rule::AntiWebhookDelete => 22,
            Rule::AntiAutomodCreate => 23,
            Rule::AntiAutomodUpdate => 24,
            Rule::AntiAutomodDelete => 25,
            Rule::AntiGuildEventCreate => 26,
            Rule::AntiGuildEventUpdate => 27,
            Rule::AntiGuildEventDelete => 28,
            Rule::AutoRecovery => 29,
            Rule::ThreadLockEnabled => 30,
        }
    }

    /// The rule at position `i` of the persisted columns, if there is one.
    pub fn from_ordinal(i: usize) -> (r: Option<Rule>)
        ensures
            i < RULE_COUNT ==> r == Some(Rule::at(i as int)),
            i >= RULE_COUNT ==> r is None,
    {
        match i {
            0 => Some(Rule::AntiBan),
            1 => Some(Rule::AntiUnban),
            2 => Some(Rule::AntiKick),
            3 => Some(Rule::AntiBot),
            4 => Some(Rule::AntiPrune),
            5 => Some(Rule::AntiChannelCreate),
            6 => Some(Rule::AntiChannelUpdate),
            7 => Some(Rule::AntiChannelDelete),
            8 => Some(Rule::AntiRoleCreate),
            9 => Some(Rule::AntiRoleUpdate),
            10 => Some(Rule::AntiRoleDelete),
            11 => Some(Rule::AntiMemberRoleUpdate),
            12 => Some(Rule::AntiEveryonePing),
            13 => Some(Rule::AntiServerUpdate),
            14 => Some(Rule::AntiEmojiCreate),
            15 => Some(Rule::AntiEmojiUpdate),
            16 => Some(Rule::AntiEmojiDelete),
            17 => Some(Rule::AntiStickerCreate),
            18 => Some(Rule::AntiStickerUpdate),
            19 => Some(Rule::AntiStickerDelete),
            20 => Some(Rule::AntiWebhookCreate),
            21 => Some(Rule::AntiWebhookUpdate),
            22 => Some(Rule::AntiWebhookDelete),
            23 => Some(Rule::AntiAutomodCreate),
            24 => Some(Rule::AntiAutomodUpdate),
            25 => Some(Rule::AntiAutomodDelete),
            26 => Some(Rule::AntiGuildEventCreate),
            27 => Some(Rule::AntiGuildEventUpdate),
            28 => Some(Rule::AntiGuildEventDelete),
            29 => Some(Rule::AutoRecovery),
            30 => Some(Rule::ThreadLockEnabled),
            _ => None,
        }
    }

    /// The rule that is persisted under `name`, if there is one.
    pub open spec fn named(name: Seq<char>) -> Option<Rule> {
        if exists|r: Rule| r.spec_name() == name {
            Some(choose|r: Rule| r.spec_name() == name)
        } else {
            None
        }
    }

    /// No two rules share a name.
    pub proof fn lemma_names_distinct(a: Rule, b: Rule)
        requires
            a.spec_name() == b.spec_name(),
        ensures
            a == b,
    {
        Rule::lemma_names_spelled();
    }

    /// The characters of every rule's name.
    proof fn lemma_names_spelled()
        ensures
            "anti_ban"@ =~= seq!['a', 'n', 't', 'i', '_', 'b', 'a', 'n'],
            "anti_unban"@ =~= seq!['a', 'n', 't', 'i', '_', 'u', 'n', 'b', 'a', 'n'],
            "anti_kick"@ =~= seq!['a', 'n', 't', 'i', '_', 'k', 'i', 'c', 'k'],
            "anti_bot"@ =~= seq!['a', 'n', 't', 'i', '_', 'b', 'o', 't'],
            "anti_prune"@ =~= seq!['a', 'n', 't', 'i', '_', 'p', 'r', 'u', 'n', 'e'],
            "anti_channel_create"@ =~= seq![
                'a', 'n', 't', 'i', '_', 'c', 'h', 'a', 'n', 'n', 'e', 'l', '_', 'c', 'r', 'e', 'a',
                't', 'e',
            ],
            "anti_channel_update"@ =~= seq![
                'a', 'n', 't', 'i', '_', 'c', 'h', 'a', 'n', 'n', 'e', 'l', '_', 'u', 'p', 'd', 'a',
                't', 'e',
            ],
            "anti_channel_delete"@ =~= seq![
                'a', 'n', 't', 'i', '_', 'c', 'h', 'a', 'n', 'n', 'e', 'l', '_', 'd', 'e', 'l', 'e',
                't', 'e',
            ],
            "anti_role_create"@ =~= seq![
                'a', 'n', 't', 'i', '_', 'r', 'o', 'l', 'e', '_', 'c', 'r', 'e', 'a', 't', 'e',
            ],
            "anti_role_update"@ =~= seq![
                'a', 'n', 't', 'i', '_', 'r', 'o', 'l', 'e', '_', 'u', 'p', 'd', 'a', 't', 'e',
            ],
            "anti_role_delete"@ =~= seq![
                'a', 'n', 't', 'i', '_', 'r', 'o', 'l', 'e', '_', 'd', 'e', 'l', 'e', 't', 'e',
            ],
            "anti_member_role_update"@ =~= seq![
                'a', 'n', 't', 'i', '_', 'm', 'e', 'm', 'b', 'e', 'r', '_', 'r', 'o', 'l', 'e', '_',
                'u', 'p', 'd', 'a', 't', 'e',
            ],
            "anti_everyone_ping"@ =~= seq![
                'a', 'n', 't', 'i', '_', 'e', 'v', 'e', 'r', 'y', 'o', 'n', 'e', '_', 'p', 'i', 'n',
                'g',
            ],
            "anti_server_update"@ =~= seq![
                'a', 'n', 't', 'i', '_', 's', 'e', 'r', 'v', 'e', 'r', '_', 'u', 'p', 'd', 'a', 't',
                'e',
            ],
            "anti_emoji_create"@ =~= seq![
                'a', 'n', 't', 'i', '_', 'e', 'm', 'o', 'j', 'i', '_', 'c', 'r', 'e', 'a', 't', 'e',
            ],
            "anti_emoji_update"@ =~= seq![
                'a', 'n', 't', 'i', '_', 'e', 'm', 'o', 'j', 'i', '_', 'u', 'p', 'd', 'a', 't', 'e',
            ],
            "anti_emoji_delete"@ =~= seq![
                'a', 'n', 't', 'i', '_', 'e', 'm', 'o', 'j', 'i', '_', 'd', 'e', 'l', 'e', 't', 'e',
            ],
            "anti_sticker_create"@ =~= seq![
                'a', 'n', 't', 'i', '_', 's', 't', 'i', 'c', 'k', 'e', 'r', '_', 'c', 'r', 'e', 'a',
                't', 'e',
            ],
            "anti_sticker_update"@ =~= seq![
                'a', 'n', 't', 'i', '_', 's', 't', 'i', 'c', 'k', 'e', 'r', '_', 'u', 'p', 'd', 'a',
                't', 'e',
            ],
            "anti_sticker_delete"@ =~= seq![
                'a', 'n', 't', 'i', '_', 's', 't', 'i', 'c', 'k', 'e', 'r', '_', 'd', 'e', 'l', 'e',
                't', 'e',
            ],
            "anti_webhook_create"@ =~= seq![
                'a', 'n', 't', 'i', '_', 'w', 'e', 'b', 'h', 'o', 'o', 'k', '_', 'c', 'r', 'e', 'a',
                't', 'e',
            ],
            "anti_webhook_update"@ =~= seq![
                'a', 'n', 't', 'i', '_', 'w', 'e', 'b', 'h', 'o', 'o', 'k', '_', 'u', 'p', 'd', 'a',
                't', 'e',
            ],
            "anti_webhook_delete"@ =~= seq![
                'a', 'n', 't', 'i', '_', 'w', 'e', 'b', 'h', 'o', 'o', 'k', '_', 'd', 'e', 'l', 'e',
                't', 'e',
            ],
            "anti_automod_create"@ =~= seq![
                'a', 'n', 't', 'i', '_', 'a', 'u', 't', 'o', 'm', 'o', 'd', '_', 'c', 'r', 'e', 'a',
                't', 'e',
            ],
            "anti_automod_update"@ =~= seq![
                'a', 'n', 't', 'i', '_', 'a', 'u', 't', 'o', 'm', 'o', 'd', '_', 'u', 'p', 'd', 'a',
                't', 'e',
            ],
            "anti_automod_delete"@ =~= seq![
                'a', 'n', 't', 'i', '_', 'a', 'u', 't', 'o', 'm', 'o', 'd', '_', 'd', 'e', 'l', 'e',
                't', 'e',
            ],
            "anti_guild_event_create"@ =~= seq![
                'a', 'n', 't', 'i', '_', 'g', 'u', 'i', 'l', 'd', '_', 'e', 'v', 'e', 'n', 't', '_',
                'c', 'r', 'e', 'a', 't', 'e',
            ],
            "anti_guild_event_update"@ =~= seq![
                'a', 'n', 't', 'i', '_', 'g', 'u', 'i', 'l', 'd', '_', 'e', 'v', 'e', 'n', 't', '_',
                'u', 'p', 'd', 'a', 't', 'e',
            ],
            "anti_guild_event_delete"@ =~= seq![
                'a', 'n', 't', 'i', '_', 'g', 'u', 'i', 'l', 'd', '_', 'e', 'v', 'e', 'n', 't', '_',
                'd', 'e', 'l', 'e', 't', 'e',
            ],
            "auto_recovery"@ =~= seq![
                'a', 'u', 't', 'o', '_', 'r', 'e', 'c', 'o', 'v', 'e', 'r', 'y',
            ],
            "thread_lock_enabled"@ =~= seq![
                't', 'h', 'r', 'e', 'a', 'd', '_', 'l', 'o', 'c', 'k', '_', 'e', 'n', 'a', 'b', 'l',
                'e', 'd',
            ],
    {
        reveal_strlit("anti_ban");
        reveal_strlit("anti_unban");
        reveal_strlit("anti_kick");
        reveal_strlit("anti_bot");
        reveal_strlit("anti_prune");
        reveal_strlit("anti_channel_create");
        reveal_strlit("anti_channel_update");
        reveal_strlit("anti_channel_delete");
        reveal_strlit("anti_role_create");
        reveal_strlit("anti_role_update");
        reveal_strlit("anti_role_delete");
        reveal_strlit("anti_member_role_update");
        reveal_strlit("anti_everyone_ping");
        reveal_strlit("anti_server_update");
        reveal_strlit("anti_emoji_create");
        reveal_strlit("anti_emoji_update");
        reveal_strlit("anti_emoji_delete");
        reveal_strlit("anti_sticker_create");
        reveal_strlit("anti_sticker_update");
        reveal_strlit("anti_sticker_delete");
        reveal_strlit("anti_webhook_create");
        reveal_strlit("anti_webhook_update");
        reveal_strlit("anti_webhook_delete");
        reveal_strlit("anti_automod_create");
        reveal_strlit("anti_automod_update");
        reveal_strlit("anti_automod_delete");
        reveal_strlit("anti_guild_event_create");
        reveal_strlit("anti_guild_event_update");
        reveal_strlit("anti_guild_event_delete");
        reveal_strlit("auto_recovery");
        reveal_strlit("thread_lock_enabled");
    }

    /// A rule is the one found under its own name.
    pub proof fn lemma_named_name(self)
        ensures
            Rule::named(self.spec_name()) == Some(self),
    {
        let found = choose|r: Rule| r.spec_name() == self.spec_name();
        Rule::lemma_names_distinct(found, self);
    }

    /// The column name under which the rule is persisted and addressed.
    pub fn name(&self) -> (s: &'static str)
        ensures
            s@ == self.spec_name(),
    {
        match self {
            Rule::AntiBan => "anti_ban",
            Rule::AntiUnban => "anti_unban",
            Rule::AntiKick => "anti_kick",
            Rule::AntiBot => "anti_bot",
            Rule::AntiPrune => "anti_prune",
            Rule::AntiChannelCreate => "anti_channel_create",
            Rule::AntiChannelUpdate => "anti_channel_update",
            Rule::AntiChannelDelete => "anti_channel_delete",
            Rule::AntiRoleCreate => "anti_role_create",
            Rule::AntiRoleUpdate => "anti_role_update",
            Rule::AntiRoleDelete => "anti_role_delete",
            Rule::AntiMemberRoleUpdate => "anti_member_role_update",
            Rule::AntiEveryonePing => "anti_everyone_ping",
            Rule::AntiServerUpdate => "anti_server_update",
            Rule::AntiEmojiCreate => "anti_emoji_create",
            Rule::AntiEmojiUpdate => "anti_emoji_update",
            Rule::AntiEmojiDelete => "anti_emoji_delete",
            Rule::AntiStickerCreate => "anti_sticker_create",
            Rule::AntiStickerUpdate => "anti_sticker_update",
            Rule::AntiStickerDelete => "anti_sticker_delete",
            Rule::AntiWebhookCreate => "anti_webhook_create",
            Rule::AntiWebhookUpdate => "anti_webhook_update",
            Rule::AntiWebhookDelete => "anti_webhook_delete",
            Rule::AntiAutomodCreate => "anti_automod_create",
            Rule::AntiAutomodUpdate => "anti_automod_update",
            Rule::AntiAutomodDelete => "anti_automod_delete",
            Rule::AntiGuildEventCreate => "anti_guild_event_create",
            Rule::AntiGuildEventUpdate => "anti_guild_event_update",
            Rule::AntiGuildEventDelete => "anti_guild_event_delete",
            Rule::AutoRecovery => "auto_recovery",
            Rule::ThreadLockEnabled => "thread_lock_enabled",
        }
    }

    /// Looks a rule up by the name under which it is persisted.
    pub fn from_name(name: &str) -> (r: Option<Rule>)
        ensures
            r == Rule::named(name@),
    {
        let mut i: usize = 0;
        while i < RULE_COUNT
            invariant
                i <= RULE_COUNT,
                forall|k: int| 0 <= k < i ==> Rule::at(k).spec_name() != name@,
            decreases RULE_COUNT - i,
        {
            let rule = match Rule::from_ordinal(i) {
                Some(rule) => rule,
                None => {
                    return None;
                },
            };
            if str_eq(rule.name(), name) {
                proof {
                    let found = choose|r: Rule| r.spec_name() == name@;
                    Rule::lemma_names_distinct(found, rule);
                }
                return Some(rule);
            }
            i += 1;
        }
        proof {
            assert forall|r: Rule| r.spec_name() != name@ by {
                r.lemma_index_at();
            }
        }
        None
    }
}

/// The flags of a community that has no stored row: every rule off, the
/// thread lock on.
pub open spec fn default_flags() -> Seq<bool> {
    Seq::new(RULE_COUNT as nat, |i: int| i == Rule::ThreadLockEnabled.index())
}

/// Flags that all hold `enabled`.
pub open spec fn uniform_flags(enabled: bool) -> Seq<bool> {
    Seq::new(RULE_COUNT as nat, |i: int| enabled)
}

/// The flags that a stored row of integers stands for: a column is on where
/// it holds 1.
pub open spec fn flags_of_columns(values: Seq<i32>) -> Seq<bool> {
    Seq::new(RULE_COUNT as nat, |i: int| values[i] == 1)
}

/// A point-in-time copy of one community's policy: one flag per rule.
#[derive(Clone, Copy, PartialEq, Eq, Debug)]
pub struct SettingsSnapshot {
    pub flags: [bool; RULE_COUNT],
}

impl View for SettingsSnapshot {
    type V = Seq<bool>;

    open spec fn view(&self) -> Seq<bool> {
        self.flags@
    }
}

impl SettingsSnapshot {
    /// Whether `rule` is on in this snapshot.
    pub open spec fn enabled(&self, rule: Rule) -> bool {
        self@[rule.index()]
    }

    /// The policy of a community without a stored row.
    pub fn defaults() -> (s: SettingsSnapshot)
        ensures
            s@ == default_flags(),
    {
        let mut flags = [false; RULE_COUNT];
        flags[Rule::ThreadLockEnabled.ordinal()] = true;
        let s = SettingsSnapshot { flags };
        assert(s@ =~= default_flags());
        s
    }

    /// A policy whose rules are all on, or all off.
    pub fn uniform(enabled: bool) -> (s: SettingsSnapshot)
        ensures
            s@ == uniform_flags(enabled),
    {
        let s = SettingsSnapshot { flags: [enabled; RULE_COUNT] };
        assert(s@ =~= uniform_flags(enabled));
        s
    }

    /// Reads a stored row, one integer per rule in the order of the rules.
    /// A row of any other length is refused.
    pub fn from_columns(values: &Vec<i32>) -> (r: Option<SettingsSnapshot>)
        ensures
            values@.len() == RULE_COUNT ==> (r matches Some(s) && s@ == flags_of_columns(values@)),
            values@.len() != RULE_COUNT ==> r is None,
    {
        if values.len() != RULE_COUNT {
            return None;
        }
        let mut flags = [false; RULE_COUNT];
        let mut i: usize = 0;
        while i < RULE_COUNT
            invariant
                i <= RULE_COUNT,
                values@.len() == RULE_COUNT,
                forall|k: int| 0 <= k < i ==> flags@[k] == (values@[k] == 1),
            decreases RULE_COUNT - i,
        {
            flags[i] = values[i] == 1;
            i += 1;
        }
        let s = SettingsSnapshot { flags };
        assert(s@ =~= flags_of_columns(values@));
        Some(s)
    }

    /// The row under which this snapshot is stored: 1 for a rule that is on,
    /// 0 for one that is off.
    pub fn to_columns(&self) -> (values: Vec<i32>)
        ensures
            values@.len() == RULE_COUNT,
            forall|i: int| 0 <= i < RULE_COUNT ==> values@[i] == if self@[i] { 1i32 } else { 0i32 },
            flags_of_columns(values@) == self@,
    {
        let mut values: Vec<i32> = Vec::new();
        let mut i: usize = 0;
        while i < RULE_COUNT
            invariant
                i <= RULE_COUNT,
                values@.len() == i,
                forall|k: int| 0 <= k < i ==> values@[k] == if self@[k] { 1i32 } else { 0i32 },
            decreases RULE_COUNT - i,
        {
            values.push(if self.flags[i] { 1 } else { 0 });
            i += 1;
        }
        assert(flags_of_columns(values@) =~= self@);
        values
    }

    /// Whether `rule` is on.
    pub fn is_enabled(&self, rule: Rule) -> (on: bool)
        ensures
            on == self.enabled(rule),
    {
        self.flags[rule.ordinal()]
    }

    /// This snapshot with `rule` set to `enabled` and every other rule as it
    /// was.
    pub fn with(&self, rule: Rule, enabled: bool) -> (s: SettingsSnapshot)
        ensures
            s@ == self@.update(rule.index(), enabled),
    {
        let mut flags = self.flags;
        flags[rule.ordinal()] = enabled;
        let s = SettingsSnapshot { flags };
        assert(s@ =~= self@.update(rule.index(), enabled));
        s
    }

    /// How many rules are on, the auto-recovery flag not counted.
    pub fn active_count(&self) -> (n: usize)
        ensures
            n == active_rules(self@, RULE_COUNT as int),
    {
        let mut n: usize = 0;
        let mut i: usize = 0;
        while i < RULE_COUNT
            invariant
                i <= RULE_COUNT,
                n == active_rules(self@, i as int),
                n <= i,
            decreases RULE_COUNT - i,
        {
            if self.flags[i] && i != Rule::AutoRecovery.ordinal() {
                n += 1;
            }
            i += 1;
        }
        n
    }
}

/// How many of the first `upto` flags are on, the auto-recovery flag not
/// counted.
pub open spec fn active_rules(flags: Seq<bool>, upto: int) -> int
    decreases upto,
{
    if upto <= 0 {
        0
    } else {
        active_rules(flags, upto - 1) + if flags[upto - 1] && upto - 1
            != Rule::AutoRecovery.index() {
            1int
        } else {
            0int
        }
    }
}

} // verus!
