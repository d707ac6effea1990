//! Roles for members, and the lists of what a community holds.

use crate::json::{as_items, as_text, member, text_field, tree, Json};
use crate::rest::{role_grant, role_permissions, trees, ADMINISTRATOR};
use crate::commands::moderation::basic::MENTION_MARKS;
use crate::text::{
    split_whitespace, str_eq, trim_chars, trimmed_of, views_of, word, word_at, words_of,
};
use vstd::prelude::*;

verus! {

/// How many entries a list shows; of the others only the number is told.
pub const LIST_LIMIT: usize = 20;

/// The characters that stand around the id in a mention of a role.
pub const ROLE_MARKS: &'static str = "<@&>";

/// What a role command does.
#[derive(Clone, Copy, PartialEq, Eq, Structural, Debug)]
pub enum RoleCommand {
    /// Shows the usage.
    Help,
    /// Gives a role to one member.
    User,
    /// Would give a role to many members at once; this is not done.
    Mass,
    Unknown,
}

/// Which members a list shows.
#[derive(Clone, Copy, PartialEq, Eq, Structural, Debug)]
pub enum MemberFilter {
    Bots,
    Admins,
    Muted,
}

/// What a list command does.
#[derive(Clone, Copy, PartialEq, Eq, Structural, Debug)]
pub enum ListCommand {
    /// Shows the usage.
    Help,
    Roles,
    Bans,
    Channels,
    Members(MemberFilter),
    /// The ignore lists of the community.
    Ignores,
    Unknown,
}

/// What the role command does, by the first word of its arguments.
pub open spec fn role_named(word: Seq<char>) -> RoleCommand {
    if word.len() == 0 {
        RoleCommand::Help
    } else if word == "user"@ {
        RoleCommand::User
    } else if word == "all"@ || word == "humans"@ || word == "bots"@ {
        RoleCommand::Mass
    } else {
        RoleCommand::Unknown
    }
}

/// Tells what the role command does, by the first word of its arguments.
pub fn role_command(word: &str) -> (c: RoleCommand)
    ensures
        c == role_named(word@),
{
    if word.is_empty() {
        RoleCommand::Help
    } else if str_eq(word, "user") {
        RoleCommand::User
    } else if str_eq(word, "all") || str_eq(word, "humans") || str_eq(word, "bots") {
        RoleCommand::Mass
    } else {
        RoleCommand::Unknown
    }
}

/// What the list command does, by the first word of its arguments.
pub open spec fn list_named(word: Seq<char>) -> ListCommand {
    if word.len() == 0 {
        ListCommand::Help
    } else if word == "roles"@ {
        ListCommand::Roles
    } else if word == "bans"@ {
        ListCommand::Bans
    } else if word == "channels"@ {
        ListCommand::Channels
    } else if word == "bots"@ {
        ListCommand::Members(MemberFilter::Bots)
    } else if word == "admin"@ || word == "admins"@ {
        ListCommand::Members(MemberFilter::Admins)
    } else if word == "muted"@ {
        ListCommand::Members(MemberFilter::Muted)
    } else if word == "ignore"@ || word == "ignores"@ {
        ListCommand::Ignores
    } else {
        ListCommand::Unknown
    }
}

/// Tells what the list command does, by the first word of its arguments.
pub fn list_command(word: &str) -> (c: ListCommand)
    ensures
        c == list_named(word@),
{
    if word.is_empty() {
        ListCommand::Help
    } else if str_eq(word, "roles") {
        ListCommand::Roles
    } else if str_eq(word, "bans") {
        ListCommand::Bans
    } else if str_eq(word, "channels") {
        ListCommand::Channels
    } else if str_eq(word, "bots") {
        ListCommand::Members(MemberFilter::Bots)
    } else if str_eq(word, "admin") || str_eq(word, "admins") {
        ListCommand::Members(MemberFilter::Admins)
    } else if str_eq(word, "muted") {
        ListCommand::Members(MemberFilter::Muted)
    } else if str_eq(word, "ignore") || str_eq(word, "ignores") {
        ListCommand::Ignores
    } else {
        ListCommand::Unknown
    }
}

/// The id of the role that a word mentions: the word without the marks of a
/// mention at its ends.
pub fn role_target(word: &str) -> (id: &str)
    ensures
        id@ == trimmed_of(word@, ROLE_MARKS@),
{
    trim_chars(word, ROLE_MARKS)
}

/// What a command of this handler comes to.
#[derive(Clone, Copy, PartialEq, Eq, Structural, Debug)]
pub enum RolesAction {
    /// The caller lacks the permission to manage roles.
    Denied,
    /// A role command.
    Role(RoleCommand),
    /// A role is to be given to a member, but the member or the role is
    /// missing: the usage is shown.
    RoleUsage,
    /// A list command.
    List(ListCommand),
}

/// A command of this handler with what it needs to be carried out.
#[derive(Clone, PartialEq, Eq, Debug)]
pub struct RolesPlan {
    pub action: RolesAction,
    /// The member that gets a role.
    pub user_id: String,
    /// The role that the member gets.
    pub role_id: String,
}

/// What a command comes to, given whether it is the role command or the
/// list command, its words, and whether the caller may run it.
pub open spec fn roles_action(is_role: bool, words: Seq<Seq<char>>, permitted: bool) -> RolesAction {
    if !permitted {
        RolesAction::Denied
    } else if is_role {
        if role_named(word_at(words, 0)) == RoleCommand::User && words.len() < 3 {
            RolesAction::RoleUsage
        } else {
            RolesAction::Role(role_named(word_at(words, 0)))
        }
    } else {
        RolesAction::List(list_named(word_at(words, 0)))
    }
}

/// Plans the role command or the list command from its words.
pub fn plan_roles_lists(is_role: bool, words: &Vec<String>, permitted: bool) -> (plan: RolesPlan)
    ensures
        plan.action == roles_action(is_role, views_of(words@), permitted),
        plan.user_id@ == trimmed_of(word_at(views_of(words@), 1), MENTION_MARKS@),
        plan.role_id@ == trimmed_of(word_at(views_of(words@), 2), ROLE_MARKS@),
{
    let user_id = trim_chars(word(words, 1), MENTION_MARKS).to_owned();
    let role_id = role_target(word(words, 2)).to_owned();
    let action = if !permitted {
        RolesAction::Denied
    } else if is_role {
        let command = role_command(word(words, 0));
        match command {
            RoleCommand::User => {
                if words.len() < 3 {
                    RolesAction::RoleUsage
                } else {
                    RolesAction::Role(command)
                }
            },
            _ => RolesAction::Role(command),
        }
    } else {
        RolesAction::List(list_command(word(words, 0)))
    };
    RolesPlan { action, user_id, role_id }
}

/// Whether the name `cmd` is one of the role command (`Some(true)`), of
/// the list command (`Some(false)`), or of neither.
pub open spec fn roles_named(cmd: Seq<char>) -> Option<bool> {
    if cmd == "role"@ || cmd == "r"@ {
        Some(true)
    } else if cmd == "list"@ || cmd == "l"@ {
        Some(false)
    } else {
        None
    }
}

/// Plans a command of this handler from its name and arguments; a name that
/// is none of this handler's comes to nothing.
pub fn handle_roles_lists(cmd: &str, args: &str, permitted: bool) -> (plan: Option<RolesPlan>)
    ensures
        match roles_named(cmd@) {
            None => plan is None,
            Some(is_role) => plan matches Some(p) && p.action == roles_action(
                is_role,
                words_of(args@),
                permitted,
            ) && p.user_id@ == trimmed_of(word_at(words_of(args@), 1), MENTION_MARKS@) && p.role_id@
                == trimmed_of(word_at(words_of(args@), 2), ROLE_MARKS@),
        },
{
    let is_role = if str_eq(cmd, "role") || str_eq(cmd, "r") {
        true
    } else if str_eq(cmd, "list") || str_eq(cmd, "l") {
        false
    } else {
        return None;
    };
    let words = split_whitespace(args);
    Some(plan_roles_lists(is_role, &words, permitted))
}

/// How many entries of a list of `count` are not shown.
pub fn hidden_entries(count: usize) -> (hidden: usize)
    ensures
        hidden == if count > LIST_LIMIT {
            count - LIST_LIMIT
        } else {
            0
        },
{
    if count > LIST_LIMIT {
        count - LIST_LIMIT
    } else {
        0
    }
}

/// A role makes its holders admins where it has an id and its permissions
/// are written as a number that holds the administrator's bit.
pub open spec fn makes_admin(role: Json) -> bool {
    role.text_field("id"@) is Some && role.text_field("permissions"@) is Some && role_grant(role)
        & ADMINISTRATOR == ADMINISTRATOR
}

/// The ids of the roles among the first `upto` of `roles` that make their
/// holders admins, in the order of the roles.
pub open spec fn admin_ids(roles: Seq<Json>, upto: int) -> Seq<Seq<char>>
    decreases upto,
{
    if upto <= 0 {
        Seq::empty()
    } else if makes_admin(roles[upto - 1]) {
        admin_ids(roles, upto - 1).push(roles[upto - 1].text_or_empty("id"@))
    } else {
        admin_ids(roles, upto - 1)
    }
}

/// Collects the ids of the roles that make their holders admins.
pub fn admin_role_ids(roles: &Vec<serde_json::Value>) -> (ids: Vec<String>)
    ensures
        views_of(ids@) == admin_ids(trees(roles@), roles@.len() as int),
{
    let mut ids: Vec<String> = Vec::new();
    let mut i: usize = 0;
    while i < roles.len()
        invariant
            i <= roles.len(),
            views_of(ids@) == admin_ids(trees(roles@), i as int),
        decreases roles.len() - i,
    {
        assert(trees(roles@)[i as int] == tree(roles@[i as int]));
        let id = text_field(&roles[i], "id");
        let has_permissions = text_field(&roles[i], "permissions").is_some();
        if has_permissions && (role_permissions(&roles[i]) & ADMINISTRATOR) == ADMINISTRATOR {
            if let Some(id) = id {
                let ghost before = views_of(ids@);
                ids.push(id);
                assert(views_of(ids@) =~= before.push(id@));
            }
        }
        i += 1;
    }
    ids
}

/// A member is a bot where the member's user says so.
pub open spec fn is_bot(m: Json) -> bool {
    match m.field("user"@) {
        Some(user) => match user.field("bot"@) {
            Some(Json::Bool(b)) => b,
            _ => false,
        },
        None => false,
    }
}

/// A member is muted where a time is set until which the member may not
/// write.
pub open spec fn is_muted(m: Json) -> bool {
    match m.text_field("communication_disabled_until"@) {
        Some(until) => until.len() > 0,
        None => false,
    }
}

/// One of the first `upto` of a member's roles is among `admins`.
pub open spec fn holds_any(roles: Seq<Json>, admins: Seq<Seq<char>>, upto: int) -> bool
    decreases upto,
{
    if upto <= 0 {
        false
    } else {
        holds_any(roles, admins, upto - 1) || match roles[upto - 1] {
            Json::Text(id) => admins.contains(id),
            _ => false,
        }
    }
}

/// A member is an admin where the member is no bot and holds one of the
/// roles `admins`.
pub open spec fn is_admin_member(m: Json, admins: Seq<Seq<char>>) -> bool {
    !is_bot(m) && match m.field("roles"@) {
        Some(Json::Array(roles)) => holds_any(roles, admins, roles.len() as int),
        _ => false,
    }
}

/// Whether a list of members shows the member `m`.
pub open spec fn listed(filter: MemberFilter, m: Json, admins: Seq<Seq<char>>) -> bool {
    match filter {
        MemberFilter::Bots => is_bot(m),
        MemberFilter::Muted => is_muted(m),
        MemberFilter::Admins => is_admin_member(m, admins),
    }
}

/// Tells whether `id` is among `ids`.
fn is_listed_id(ids: &Vec<String>, id: &str) -> (r: bool)
    ensures
        r == views_of(ids@).contains(id@),
{
    let mut i: usize = 0;
    while i < ids.len()
        invariant
            i <= ids.len(),
            forall|k: int| 0 <= k < i ==> views_of(ids@)[k] != id@,
        decreases ids.len() - i,
    {
        if str_eq(ids[i].as_str(), id) {
            assert(views_of(ids@)[i as int] == id@);
            return true;
        }
        i += 1;
    }
    false
}

/// Tells whether the member's user is a bot.
fn member_is_bot(m: &serde_json::Value) -> (r: bool)
    ensures
        r == is_bot(tree(*m)),
{
    match member(m, "user") {
        Some(user) => match member(user, "bot") {
            Some(flag) => match crate::json::as_flag(flag) {
                Some(b) => b,
                None => false,
            },
            None => false,
        },
        None => false,
    }
}

/// Tells whether a list of members shows a member.
pub fn member_listed(filter: MemberFilter, m: &serde_json::Value, admins: &Vec<String>) -> (r: bool)
    ensures
        r == listed(filter, tree(*m), views_of(admins@)),
{
    match filter {
        MemberFilter::Bots => member_is_bot(m),
        MemberFilter::Muted => match text_field(m, "communication_disabled_until") {
            Some(until) => !until.as_str().is_empty(),
            None => false,
        },
        MemberFilter::Admins => {
            if member_is_bot(m) {
                return false;
            }
            let roles = match member(m, "roles") {
                Some(list) => match as_items(list) {
                    Some(roles) => roles,
                    None => {
                        return false;
                    },
                },
                None => {
                    return false;
                },
            };
            let ghost models = tree(*m).field("roles"@)->0->Array_0;
            let mut i: usize = 0;
            while i < roles.len()
                invariant
                    i <= roles.len(),
                    roles@.len() == models.len(),
                    forall|k: int| 0 <= k < roles@.len() ==> tree(#[trigger] roles@[k]) == models[k],
                    filter == MemberFilter::Admins,
                    !is_bot(tree(*m)),
                    tree(*m).field("roles"@) == Some(Json::Array(models)),
                    !holds_any(models, views_of(admins@), i as int),
                decreases roles.len() - i,
            {
                assert(tree(roles@[i as int]) == models[i as int]);
                let held = match as_text(&roles[i]) {
                    Some(id) => is_listed_id(admins, id),
                    None => false,
                };
                if held {
                    proof {
                        lemma_holds_any_grows(models, views_of(admins@), i + 1, models.len() as int);
                    }
                    return true;
                }
                i += 1;
            }
            false
        },
    }
}

/// What holds of the first roles holds of more of them.
proof fn lemma_holds_any_grows(roles: Seq<Json>, admins: Seq<Seq<char>>, n: int, m: int)
    requires
        n <= m,
        holds_any(roles, admins, n),
    ensures
        holds_any(roles, admins, m),
    decreases m - n,
{
    if n < m {
        lemma_holds_any_grows(roles, admins, n, m - 1);
    }
}

/// Whether the list of channels shows a channel of the kind `kind`: text
/// channels (0) and voice channels (2) are shown.
pub fn is_listed_kind(kind: u64) -> (r: bool)
    ensures
        r == (kind == 0 || kind == 2),
{
    kind == 0 || kind == 2
}

} // verus!
