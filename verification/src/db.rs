//! The in-memory side of the configuration store: cached policy snapshots
//! per community, the two trust sets and the prefix overrides.
//!
//! Durable storage is the caller's. Every mutation takes the outcome of the
//! caller's write and is applied only where that write succeeded, so that
//! memory never runs ahead of storage.

use crate::rules::{
    default_flags, flags_of_columns, uniform_flags, Rule, SettingsSnapshot, RULE_COUNT,
};
use vstd::hash_map::StringHashMap;
use vstd::hash_set::StringHashSet;
use vstd::prelude::*;
use vstd::string::StringExecFns;

verus! {

/// Why a mutation of the store was refused.
#[derive(Clone, Copy, PartialEq, Eq, Structural, Debug)]
pub enum DbError {
    /// The write to durable storage failed; nothing was changed in memory.
    Storage,
    /// No rule goes by the given name.
    UnknownSetting,
}

/// What durable storage answered when asked for the row of a community.
#[derive(PartialEq, Eq, Debug)]
pub enum StoredRow {
    /// The community has no row.
    Missing,
    /// The row's columns, one integer per rule in the order of the rules.
    Row(Vec<i32>),
    /// Storage could not be read.
    Failed,
}

/// The flags that an answer of storage stands for, where it stands for any:
/// the defaults for a community without a row, the row's own flags for a row
/// of the right length.
pub open spec fn loaded_flags(row: StoredRow) -> Option<Seq<bool>> {
    match row {
        StoredRow::Missing => Some(default_flags()),
        StoredRow::Row(values) => if values@.len() == RULE_COUNT {
            Some(flags_of_columns(values@))
        } else {
            None
        },
        StoredRow::Failed => None,
    }
}

/// The policy of community `c` under the cached snapshots `settings`: the
/// cached one, or the defaults where none is cached.
pub open spec fn policy_in(settings: Map<Seq<char>, Seq<bool>>, c: Seq<char>) -> Seq<bool> {
    if settings.contains_key(c) {
        settings[c]
    } else {
        default_flags()
    }
}

/// The cached snapshots after one rule of community `c` has been set: the
/// snapshot of `c` is its policy with that rule changed.
pub open spec fn merged(
    settings: Map<Seq<char>, Seq<bool>>,
    c: Seq<char>,
    rule: Rule,
    enabled: bool,
) -> Map<Seq<char>, Seq<bool>> {
    settings.insert(c, policy_in(settings, c).update(rule.index(), enabled))
}

/// The cached snapshots after every rule of community `c` has been set to
/// `enabled`: the snapshot of `c` is replaced wholesale.
pub open spec fn replaced(settings: Map<Seq<char>, Seq<bool>>, c: Seq<char>, enabled: bool) -> Map<
    Seq<char>,
    Seq<bool>,
> {
    settings.insert(c, uniform_flags(enabled))
}

/// The prefix of a community that has none of its own.
pub open spec fn default_prefix() -> Seq<char> {
    "!"@
}

/// The ids that `rows` holds.
pub open spec fn ids_of(rows: Seq<String>) -> Set<Seq<char>> {
    Set::new(|id: Seq<char>| exists|i: int| 0 <= i < rows.len() && (#[trigger] rows[i])@ == id)
}

/// The source of policy and trust: per community the cached snapshot of its
/// rules and its prefix, and for the whole process the whitelist and the
/// admins.
pub struct Database {
    settings_cache: StringHashMap<SettingsSnapshot>,
    whitelist_cache: StringHashSet,
    admin_cache: StringHashSet,
    prefix_cache: StringHashMap<String>,
}

impl Database {
    /// The cached policy of each community that has one cached.
    pub closed spec fn settings(&self) -> Map<Seq<char>, Seq<bool>> {
        Map::new(
            |c: Seq<char>| self.settings_cache@.contains_key(c),
            |c: Seq<char>| self.settings_cache@[c]@,
        )
    }

    /// The users exempt from detection.
    pub closed spec fn whitelist(&self) -> Set<Seq<char>> {
        self.whitelist_cache@
    }

    /// The operators of the bot.
    pub closed spec fn admins(&self) -> Set<Seq<char>> {
        self.admin_cache@
    }

    /// The cached prefix of each community that has one cached.
    pub closed spec fn prefixes(&self) -> Map<Seq<char>, Seq<char>> {
        Map::new(
            |c: Seq<char>| self.prefix_cache@.contains_key(c),
            |c: Seq<char>| self.prefix_cache@[c]@,
        )
    }

    /// The policy that a change to community `c` is merged into: the cached
    /// one, or the defaults where none is cached.
    pub open spec fn policy(&self, c: Seq<char>) -> Seq<bool> {
        policy_in(self.settings(), c)
    }

    /// Every cached snapshot holds one flag per rule.
    pub proof fn lemma_settings_shape(&self)
        ensures
            forall|c: Seq<char>| #[trigger] self.policy(c).len() == RULE_COUNT,
    {
        assert forall|c: Seq<char>| #[trigger] self.policy(c).len() == RULE_COUNT by {
            if self.settings().contains_key(c) {
                assert(self.settings()[c] == self.settings_cache@[c].flags@);
            }
        }
    }

    /// `user` is on the whitelist or among the admins.
    pub open spec fn exempt(&self, user: Seq<char>) -> bool {
        self.whitelist().contains(user) || self.admins().contains(user)
    }

    /// The two trust sets are those of `other`.
    pub open spec fn same_trust(&self, other: &Database) -> bool {
        self.whitelist() == other.whitelist() && self.admins() == other.admins()
    }

    /// A store with nothing cached and empty trust sets.
    pub fn new() -> (db: Database)
        ensures
            db.settings() == Map::<Seq<char>, Seq<bool>>::empty(),
            db.prefixes() == Map::<Seq<char>, Seq<char>>::empty(),
            db.whitelist() == Set::<Seq<char>>::empty(),
            db.admins() == Set::<Seq<char>>::empty(),
    {
        let db = Database {
            settings_cache: StringHashMap::new(),
            whitelist_cache: StringHashSet::new(),
            admin_cache: StringHashSet::new(),
            prefix_cache: StringHashMap::new(),
        };
        assert(db.settings() =~= Map::<Seq<char>, Seq<bool>>::empty());
        assert(db.prefixes() =~= Map::<Seq<char>, Seq<char>>::empty());
        db
    }

    /// Adds the stored ids of both trust sets to the sets in memory.
    pub fn preload_caches(&mut self, whitelist: &Vec<String>, admins: &Vec<String>)
        ensures
            final(self).whitelist() == old(self).whitelist().union(ids_of(whitelist@)),
            final(self).admins() == old(self).admins().union(ids_of(admins@)),
            final(self).settings() == old(self).settings(),
            final(self).prefixes() == old(self).prefixes(),
    {
        let mut i: usize = 0;
        while i < whitelist.len()
            invariant
                i <= whitelist@.len(),
                self.whitelist_cache@ == old(self).whitelist_cache@.union(
                    ids_of(whitelist@.take(i as int)),
                ),
                self.admin_cache == old(self).admin_cache,
                self.settings_cache == old(self).settings_cache,
                self.prefix_cache == old(self).prefix_cache,
            decreases whitelist@.len() - i,
        {
            self.whitelist_cache.insert(whitelist[i].clone());
            proof {
                lemma_ids_of_take(whitelist@, i as int);
                assert(self.whitelist_cache@ =~= old(self).whitelist_cache@.union(
                    ids_of(whitelist@.take(i + 1)),
                ));
            }
            i += 1;
        }
        assert(whitelist@.take(whitelist@.len() as int) =~= whitelist@);
        let mut j: usize = 0;
        while j < admins.len()
            invariant
                j <= admins@.len(),
                self.admin_cache@ == old(self).admin_cache@.union(ids_of(admins@.take(j as int))),
                self.whitelist_cache@ == old(self).whitelist_cache@.union(ids_of(whitelist@)),
                self.settings_cache == old(self).settings_cache,
                self.prefix_cache == old(self).prefix_cache,
            decreases admins@.len() - j,
        {
            self.admin_cache.insert(admins[j].clone());
            proof {
                lemma_ids_of_take(admins@, j as int);
                assert(self.admin_cache@ =~= old(self).admin_cache@.union(
                    ids_of(admins@.take(j + 1)),
                ));
            }
            j += 1;
        }
        assert(admins@.take(admins@.len() as int) =~= admins@);
    }

    /// The cached snapshot of a community, if one is cached.
    pub fn get_antinuke_settings(&self, guild_id: &str) -> (found: Option<SettingsSnapshot>)
        ensures
            match found {
                Some(s) => self.settings().contains_key(guild_id@) && s@ == self.settings()[guild_id@],
                None => !self.settings().contains_key(guild_id@),
            },
    {
        match self.settings_cache.get(guild_id) {
            Some(s) => Some(*s),
            None => None,
        }
    }

    /// Answers a miss of the cache with what storage holds for the
    /// community. Where storage gave a policy, it is cached and returned.
    /// Where storage failed, the defaults are returned and nothing is cached.
    /// A snapshot that was cached in the meantime wins over the row.
    pub fn load_antinuke_settings(&mut self, guild_id: &str, row: &StoredRow) -> (s:
        SettingsSnapshot)
        ensures
            final(self).same_trust(old(self)),
            final(self).prefixes() == old(self).prefixes(),
            old(self).settings().contains_key(guild_id@) ==> {
                &&& s@ == old(self).settings()[guild_id@]
                &&& final(self).settings() == old(self).settings()
            },
            !old(self).settings().contains_key(guild_id@) ==> match loaded_flags(*row) {
                Some(flags) => {
                    &&& s@ == flags
                    &&& final(self).settings() == old(self).settings().insert(guild_id@, flags)
                },
                None => {
                    &&& s@ == default_flags()
                    &&& final(self).settings() == old(self).settings()
                },
            },
    {
        if let Some(cached) = self.settings_cache.get(guild_id) {
            return *cached;
        }
        let loaded = match row {
            StoredRow::Missing => Some(SettingsSnapshot::defaults()),
            StoredRow::Row(values) => SettingsSnapshot::from_columns(values),
            StoredRow::Failed => None,
        };
        match loaded {
            Some(s) => {
                self.settings_cache.insert(guild_id.to_owned(), s);
                assert(self.settings() =~= old(self).settings().insert(guild_id@, s@));
                s
            },
            None => SettingsSnapshot::defaults(),
        }
    }

    /// Sets one rule of a community, given whether the change was written to
    /// storage. On a successful write the cached snapshot is replaced by the
    /// community's policy with that one rule changed; on a failed one
    /// nothing changes.
    pub fn update_antinuke_setting(
        &mut self,
        guild_id: &str,
        setting: &str,
        enabled: bool,
        persisted: bool,
    ) -> (r: Result<(), DbError>)
        ensures
            final(self).same_trust(old(self)),
            final(self).prefixes() == old(self).prefixes(),
            match Rule::named(setting@) {
                None => r == Err::<(), DbError>(DbError::UnknownSetting) && final(self).settings()
                    == old(self).settings(),
                Some(rule) => if persisted {
                    &&& r is Ok
                    &&& final(self).settings() == merged(
                        old(self).settings(),
                        guild_id@,
                        rule,
                        enabled,
                    )
                } else {
                    &&& r == Err::<(), DbError>(DbError::Storage)
                    &&& final(self).settings() == old(self).settings()
                },
            },
    {
        let rule = match Rule::from_name(setting) {
            Some(rule) => rule,
            None => {
                return Err(DbError::UnknownSetting);
            },
        };
        if !persisted {
            return Err(DbError::Storage);
        }
        let current = match self.settings_cache.get(guild_id) {
            Some(s) => *s,
            None => SettingsSnapshot::defaults(),
        };
        let merged = current.with(rule, enabled);
        self.settings_cache.insert(guild_id.to_owned(), merged);
        assert(self.settings() =~= old(self).settings().insert(
            guild_id@,
            old(self).policy(guild_id@).update(rule.index(), enabled),
        ));
        Ok(())
    }

    /// Sets every rule of a community to `enabled`, given whether the change
    /// was written to storage. On a successful write the cached snapshot is
    /// replaced wholesale; on a failed one nothing changes.
    pub fn bulk_update_antinuke(&mut self, guild_id: &str, enabled: bool, persisted: bool) -> (r:
        Result<(), DbError>)
        ensures
            final(self).same_trust(old(self)),
            final(self).prefixes() == old(self).prefixes(),
            persisted ==> r is Ok && final(self).settings() == replaced(
                old(self).settings(),
                guild_id@,
                enabled,
            ),
            !persisted ==> r == Err::<(), DbError>(DbError::Storage) && final(self).settings()
                == old(self).settings(),
    {
        if !persisted {
            return Err(DbError::Storage);
        }
        self.settings_cache.insert(guild_id.to_owned(), SettingsSnapshot::uniform(enabled));
        assert(self.settings() =~= old(self).settings().insert(guild_id@, uniform_flags(enabled)));
        Ok(())
    }

    /// Puts a user on the whitelist, given whether the user was written to
    /// storage; a failed write leaves the set as it was.
    pub fn add_whitelist(&mut self, user_id: &str, persisted: bool) -> (r: Result<(), DbError>)
        ensures
            final(self).admins() == old(self).admins(),
            final(self).settings() == old(self).settings(),
            final(self).prefixes() == old(self).prefixes(),
            persisted ==> r is Ok && final(self).whitelist() == old(self).whitelist().insert(
                user_id@,
            ),
            !persisted ==> r == Err::<(), DbError>(DbError::Storage) && final(self).whitelist()
                == old(self).whitelist(),
    {
        if !persisted {
            return Err(DbError::Storage);
        }
        self.whitelist_cache.insert(user_id.to_owned());
        Ok(())
    }

    /// Takes a user off the whitelist, given whether the removal was written
    /// to storage; a failed write leaves the set as it was.
    pub fn remove_whitelist(&mut self, user_id: &str, persisted: bool) -> (r: Result<(), DbError>)
        ensures
            final(self).admins() == old(self).admins(),
            final(self).settings() == old(self).settings(),
            final(self).prefixes() == old(self).prefixes(),
            persisted ==> r is Ok && final(self).whitelist() == old(self).whitelist().remove(
                user_id@,
            ),
            !persisted ==> r == Err::<(), DbError>(DbError::Storage) && final(self).whitelist()
                == old(self).whitelist(),
    {
        if !persisted {
            return Err(DbError::Storage);
        }
        self.whitelist_cache.remove(user_id);
        Ok(())
    }

    /// Whether a user is on the whitelist.
    pub fn is_whitelisted(&self, user_id: &str) -> (r: bool)
        ensures
            r == self.whitelist().contains(user_id@),
    {
        self.whitelist_cache.contains(user_id)
    }

    /// Makes a user an admin, given whether the user was written to storage;
    /// a failed write leaves the set as it was.
    pub fn add_admin(&mut self, user_id: &str, persisted: bool) -> (r: Result<(), DbError>)
        ensures
            final(self).whitelist() == old(self).whitelist(),
            final(self).settings() == old(self).settings(),
            final(self).prefixes() == old(self).prefixes(),
            persisted ==> r is Ok && final(self).admins() == old(self).admins().insert(user_id@),
            !persisted ==> r == Err::<(), DbError>(DbError::Storage) && final(self).admins() == old(
                self,
            ).admins(),
    {
        if !persisted {
            return Err(DbError::Storage);
        }
        self.admin_cache.insert(user_id.to_owned());
        Ok(())
    }

    /// Takes a user from the admins, given whether the removal was written
    /// to storage; a failed write leaves the set as it was.
    pub fn remove_admin(&mut self, user_id: &str, persisted: bool) -> (r: Result<(), DbError>)
        ensures
            final(self).whitelist() == old(self).whitelist(),
            final(self).settings() == old(self).settings(),
            final(self).prefixes() == old(self).prefixes(),
            persisted ==> r is Ok && final(self).admins() == old(self).admins().remove(user_id@),
            !persisted ==> r == Err::<(), DbError>(DbError::Storage) && final(self).admins() == old(
                self,
            ).admins(),
    {
        if !persisted {
            return Err(DbError::Storage);
        }
        self.admin_cache.remove(user_id);
        Ok(())
    }

    /// Whether a user is an admin.
    pub fn is_admin(&self, user_id: &str) -> (r: bool)
        ensures
            r == self.admins().contains(user_id@),
    {
        self.admin_cache.contains(user_id)
    }

    /// Whether a user is on the whitelist or an admin.
    pub fn is_exempt(&self, user_id: &str) -> (r: bool)
        ensures
            r == self.exempt(user_id@),
    {
        self.whitelist_cache.contains(user_id) || self.admin_cache.contains(user_id)
    }

    /// The cached prefix of a community, if one is cached.
    pub fn get_prefix(&self, guild_id: &str) -> (found: Option<String>)
        ensures
            match found {
                Some(p) => self.prefixes().contains_key(guild_id@) && p@ == self.prefixes()[guild_id@],
                None => !self.prefixes().contains_key(guild_id@),
            },
    {
        match self.prefix_cache.get(guild_id) {
            Some(p) => Some(p.clone()),
            None => None,
        }
    }

    /// Answers a miss of the prefix cache with what storage holds: the stored
    /// prefix, or `!` where there is none or storage failed. The answer is
    /// cached and returned.
    pub fn load_prefix(&mut self, guild_id: &str, stored: Option<String>) -> (prefix: String)
        ensures
            final(self).same_trust(old(self)),
            final(self).settings() == old(self).settings(),
            prefix@ == match stored {
                Some(p) => p@,
                None => default_prefix(),
            },
            final(self).prefixes() == old(self).prefixes().insert(guild_id@, prefix@),
    {
        let prefix = match stored {
            Some(p) => p,
            None => String::from_str("!"),
        };
        self.prefix_cache.insert(guild_id.to_owned(), prefix.clone());
        assert(self.prefixes() =~= old(self).prefixes().insert(guild_id@, prefix@));
        prefix
    }

    /// Sets the prefix of a community, given whether it was written to
    /// storage; a failed write leaves the cache as it was.
    pub fn set_prefix(&mut self, guild_id: &str, prefix: &str, persisted: bool) -> (r: Result<
        (),
        DbError,
    >)
        ensures
            final(self).same_trust(old(self)),
            final(self).settings() == old(self).settings(),
            persisted ==> r is Ok && final(self).prefixes() == old(self).prefixes().insert(
                guild_id@,
                prefix@,
            ),
            !persisted ==> r == Err::<(), DbError>(DbError::Storage) && final(self).prefixes()
                == old(self).prefixes(),
    {
        if !persisted {
            return Err(DbError::Storage);
        }
        self.prefix_cache.insert(guild_id.to_owned(), prefix.to_owned());
        assert(self.prefixes() =~= old(self).prefixes().insert(guild_id@, prefix@));
        Ok(())
    }
}

/// Setting every rule of a community and reading its settings right after
/// gives a snapshot in which every rule holds the value set. Nothing of what
/// was cached before is left in it, and no other community's policy changes.
pub proof fn lemma_bulk_update_then_get(db: Database, c: Seq<char>, enabled: bool)
    ensures
        replaced(db.settings(), c, enabled).contains_key(c),
        replaced(db.settings(), c, enabled)[c] == uniform_flags(enabled),
        forall|rule: Rule| #[trigger]
            replaced(db.settings(), c, enabled)[c][rule.index()] == enabled,
        forall|other: Database|
            replaced(db.settings(), c, enabled)[c] == #[trigger] replaced(
                other.settings(),
                c,
                enabled,
            )[c],
        forall|d: Seq<char>|
            d != c ==> #[trigger] policy_in(replaced(db.settings(), c, enabled), d) == db.policy(d),
{
    assert forall|rule: Rule| #[trigger]
        replaced(db.settings(), c, enabled)[c][rule.index()] == enabled by {
        rule.lemma_index_at();
    }
}

/// Setting one rule of a community and then another leaves both as they
/// were set, and every other rule of the community as it was before. No
/// other community's policy changes.
pub proof fn lemma_updates_do_not_clobber(
    db: Database,
    c: Seq<char>,
    first: Rule,
    first_enabled: bool,
    second: Rule,
    second_enabled: bool,
)
    requires
        first != second,
    ensures
        ({
            let after = merged(
                merged(db.settings(), c, first, first_enabled),
                c,
                second,
                second_enabled,
            );
            &&& after.contains_key(c)
            &&& after[c][first.index()] == first_enabled
            &&& after[c][second.index()] == second_enabled
            &&& forall|rule: Rule|
                rule != first && rule != second ==> #[trigger] after[c][rule.index()]
                    == db.policy(c)[rule.index()]
            &&& forall|d: Seq<char>| d != c ==> #[trigger] policy_in(after, d) == db.policy(d)
        }),
{
    db.lemma_settings_shape();
    assert(db.policy(c).len() == RULE_COUNT);
    first.lemma_index_at();
    second.lemma_index_at();
    let after = merged(merged(db.settings(), c, first, first_enabled), c, second, second_enabled);
    assert forall|rule: Rule| rule != first && rule != second implies #[trigger] after[c][rule.index()]
        == db.policy(c)[rule.index()] by {
        rule.lemma_index_at();
    }
}

/// Setting one rule of a community and reading its settings right after
/// gives the value set.
pub proof fn lemma_update_then_get(db: Database, c: Seq<char>, rule: Rule, enabled: bool)
    ensures
        merged(db.settings(), c, rule, enabled).contains_key(c),
        merged(db.settings(), c, rule, enabled)[c][rule.index()] == enabled,
{
    db.lemma_settings_shape();
    assert(db.policy(c).len() == RULE_COUNT);
    rule.lemma_index_at();
}

/// The ids of the first `i + 1` rows are those of the first `i` and the id
/// of row `i`.
proof fn lemma_ids_of_take(rows: Seq<String>, i: int)
    requires
        0 <= i < rows.len(),
    ensures
        ids_of(rows.take(i + 1)) == ids_of(rows.take(i)).insert(rows[i]@),
{
    let a = ids_of(rows.take(i + 1));
    let b = ids_of(rows.take(i)).insert(rows[i]@);
    assert forall|id: Seq<char>| a.contains(id) implies b.contains(id) by {
        let longer = rows.take(i + 1);
        let k = choose|k: int| 0 <= k < longer.len() && (#[trigger] longer[k])@ == id;
        if k < i {
            assert(rows.take(i)[k]@ == id);
        }
    }
    assert forall|id: Seq<char>| b.contains(id) implies a.contains(id) by {
        if id == rows[i]@ {
            assert(rows.take(i + 1)[i]@ == id);
        } else {
            let shorter = rows.take(i);
            let k = choose|k: int| 0 <= k < shorter.len() && (#[trigger] shorter[k])@ == id;
            assert(rows.take(i + 1)[k]@ == id);
        }
    }
    assert(a =~= b);
}

} // verus!
