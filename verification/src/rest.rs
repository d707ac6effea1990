//! What the answers of the platform's REST interface say about permissions.
//!
//! The calls themselves are not made here: this module reads what came back.

use crate::json::{as_items, as_text, member, text_field, tree, Json};
use crate::text::{parse_u64, str_eq, unsigned_of};
use vstd::prelude::*;

verus! {

/// The bit of the permission that grants every other.
pub const ADMINISTRATOR: u64 = 0x8;

/// What each of `values` holds.
pub open spec fn trees(values: Seq<serde_json::Value>) -> Seq<Json> {
    Seq::new(values.len(), |i: int| tree(values[i]))
}

/// The permissions that a role grants: the number that its member
/// `permissions` writes as a string, or none where it writes no number.
pub open spec fn role_grant(role: Json) -> u64 {
    match role.text_field("permissions"@) {
        Some(s) => match unsigned_of(s, u64::MAX as int) {
            Some(n) => n as u64,
            None => 0,
        },
        None => 0,
    }
}

/// The permissions of the first of `roles` whose id is `id`; none where no
/// role has that id.
pub open spec fn grant_of(roles: Seq<Json>, id: Seq<char>) -> u64
    decreases roles.len(),
{
    if roles.len() == 0 {
        0
    } else if roles[0].text_field("id"@) == Some(id) {
        role_grant(roles[0])
    } else {
        grant_of(roles.skip(1), id)
    }
}

/// The permissions that the first `upto` of a member's role ids add up to.
/// An id that is no string adds nothing.
pub open spec fn grants_of(ids: Seq<Json>, roles: Seq<Json>, upto: int) -> u64
    decreases upto,
{
    if upto <= 0 {
        0
    } else {
        grants_of(ids, roles, upto - 1) | match ids[upto - 1] {
            Json::Text(id) => grant_of(roles, id),
            _ => 0,
        }
    }
}

/// The permissions of a member of the community `guild_id`: those of the
/// community's own role, which everybody has, and those of every role that
/// the member's list `roles` names.
pub open spec fn member_grant(member: Json, roles: Seq<Json>, guild_id: Seq<char>) -> u64 {
    grant_of(roles, guild_id) | match member.field("roles"@) {
        Some(Json::Array(ids)) => grants_of(ids, roles, ids.len() as int),
        _ => 0,
    }
}

/// Permissions grant what is required where they hold the administrator's
/// bit or every required bit.
pub open spec fn grants(permissions: u64, required: u64) -> bool {
    permissions & ADMINISTRATOR != 0 || permissions & required == required
}

/// Whether the community `guild` is owned by `user_id`.
pub fn is_owner(guild: &serde_json::Value, user_id: &str) -> (r: bool)
    ensures
        r == (tree(*guild).text_field("owner_id"@) == Some(user_id@)),
{
    match text_field(guild, "owner_id") {
        Some(owner) => str_eq(owner.as_str(), user_id),
        None => false,
    }
}

/// Reads the permissions that a role grants.
pub fn role_permissions(role: &serde_json::Value) -> (p: u64)
    ensures
        p == role_grant(tree(*role)),
{
    match text_field(role, "permissions") {
        Some(s) => match parse_u64(s.as_str()) {
            Some(n) => n,
            None => 0,
        },
        None => 0,
    }
}

/// Finds the permissions of the role with the id `id` among `roles`.
pub fn find_role_permissions(roles: &Vec<serde_json::Value>, id: &str) -> (p: u64)
    ensures
        p == grant_of(trees(roles@), id@),
{
    let mut i: usize = 0;
    assert(trees(roles@).skip(0) =~= trees(roles@));
    while i < roles.len()
        invariant
            i <= roles.len(),
            grant_of(trees(roles@), id@) == grant_of(trees(roles@).skip(i as int), id@),
        decreases roles.len() - i,
    {
        let ghost rest = trees(roles@).skip(i as int);
        assert(rest[0] == tree(roles@[i as int]));
        let matches = match text_field(&roles[i], "id") {
            Some(found) => str_eq(found.as_str(), id),
            None => false,
        };
        if matches {
            return role_permissions(&roles[i]);
        }
        assert(rest.skip(1) =~= trees(roles@).skip(i + 1));
        i += 1;
    }
    assert(trees(roles@).skip(roles@.len() as int).len() == 0);
    0
}

/// Adds up the permissions of a member of the community `guild_id`.
pub fn member_permissions(
    member_data: &serde_json::Value,
    roles: &Vec<serde_json::Value>,
    guild_id: &str,
) -> (p: u64)
    ensures
        p == member_grant(tree(*member_data), trees(roles@), guild_id@),
{
    let mut permissions: u64 = find_role_permissions(roles, guild_id);
    let ids = match member(member_data, "roles") {
        Some(list) => match as_items(list) {
            Some(ids) => ids,
            None => {
                assert(permissions | 0 == permissions) by (bit_vector);
                return permissions;
            },
        },
        None => {
            assert(permissions | 0 == permissions) by (bit_vector);
            return permissions;
        },
    };
    let ghost everyone = permissions;
    let ghost models = tree(*member_data).field("roles"@)->0->Array_0;
    let mut sum: u64 = 0;
    let mut i: usize = 0;
    while i < ids.len()
        invariant
            i <= ids.len(),
            ids@.len() == models.len(),
            forall|k: int| 0 <= k < ids@.len() ==> tree(#[trigger] ids@[k]) == models[k],
            sum == grants_of(models, trees(roles@), i as int),
        decreases ids.len() - i,
    {
        let grant = match as_text(&ids[i]) {
            Some(id) => find_role_permissions(roles, id),
            None => 0,
        };
        assert(tree(ids@[i as int]) == models[i as int]);
        sum = sum | grant;
        i += 1;
    }
    permissions | sum
}

/// Whether permissions grant what is required.
pub fn has_permission(permissions: u64, required_perm: u64) -> (r: bool)
    ensures
        r == grants(permissions, required_perm),
{
    let is_admin = (permissions & ADMINISTRATOR) != 0;
    let has_specific = (permissions & required_perm) == required_perm;
    is_admin || has_specific
}

} // verus!
