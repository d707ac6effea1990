//! Creation and deletion of channels, and the thread lock.

use crate::antinuke::moderation::detect_mass_action;
use crate::antinuke::{
    mass_incident, owed, recorded, Alert, EventData, EventKind, Handler, Incident, Pass, Verdict,
};
use crate::db::Database;
use crate::json::{as_items, tree, Json};
use crate::rules::{Rule, SettingsSnapshot};
use crate::text::str_eq;
use crate::window::{pruned, ActionKind, ActionTracker};
use vstd::prelude::*;

verus! {

/// Judges the creation and deletion of channels and the creation of
/// threads. Deletions are counted per community; a creation is an incident
/// at once; a thread goes to the thread lock. All need their rule to be on
/// and an actor who is not exempt. Updates of channels are watched by no
/// rule; any other kind of event is not this handler's. Both pass unhandled.
pub fn handle_event(
    kind: EventKind,
    data: &EventData,
    settings: &SettingsSnapshot,
    db: &Database,
    tracker: &mut ActionTracker,
    now: u64,
    threshold: usize,
) -> (v: Verdict)
    requires
        old(tracker).wf(),
        now >= old(tracker).clock(),
    ensures
        final(tracker).wf(),
        kind.handler() == Handler::Channels ==> {
            &&& v == owed(kind, *data, settings@, *db, *final(tracker), threshold)
            &&& recorded(kind, *data, settings@, *db, *old(tracker), *final(tracker), now)
        },
        kind.handler() != Handler::Channels ==> {
            &&& v == Verdict::Pass(Pass::Unhandled)
            &&& *final(tracker) == *old(tracker)
        },
{
    match kind {
        EventKind::ChannelDelete => {
            if !settings.is_enabled(Rule::AntiChannelDelete) {
                Verdict::Pass(Pass::RuleDisabled)
            } else if db.is_exempt(data.executor_id.as_str()) {
                Verdict::Pass(Pass::ActorExempt)
            } else {
                detect_mass_channel_action(data.guild_id.as_str(), tracker, now, threshold)
            }
        },
        EventKind::ThreadCreate => {
            if !settings.is_enabled(Rule::ThreadLockEnabled) {
                Verdict::Pass(Pass::RuleDisabled)
            } else if db.is_exempt(data.owner_id.as_str()) {
                Verdict::Pass(Pass::ActorExempt)
            } else {
                Verdict::ThreadLock
            }
        },
        EventKind::ChannelCreate => {
            if !settings.is_enabled(Rule::AntiChannelCreate) {
                Verdict::Pass(Pass::RuleDisabled)
            } else if db.is_exempt(data.executor_id.as_str()) {
                Verdict::Pass(Pass::ActorExempt)
            } else {
                Verdict::Incident(
                    Incident {
                        rule: Rule::AntiChannelCreate,
                        alert: Alert::ChannelCreation,
                        action_type: Some(10u8),
                    },
                )
            }
        },
        _ => Verdict::Pass(Pass::Unhandled),
    }
}

/// Counts the deletion of a channel in the window of its community: an
/// incident once the window holds `threshold` deletions.
pub fn detect_mass_channel_action(
    guild_id: &str,
    tracker: &mut ActionTracker,
    now: u64,
    threshold: usize,
) -> (v: Verdict)
    requires
        old(tracker).wf(),
        now >= old(tracker).clock(),
    ensures
        final(tracker).wf(),
        final(tracker).window() == old(tracker).window(),
        final(tracker).clock() == now,
        final(tracker).history(ActionKind::ChannelDelete, guild_id@) == pruned(
            old(tracker).history(ActionKind::ChannelDelete, guild_id@).push(now),
            now,
            old(tracker).window(),
        ),
        forall|k: ActionKind, c: Seq<char>|
            k != ActionKind::ChannelDelete || c != guild_id@ ==> #[trigger] final(tracker).history(
                k,
                c,
            ) == old(tracker).history(k, c),
        v == if final(tracker).history(ActionKind::ChannelDelete, guild_id@).len() >= threshold {
            Verdict::Incident(mass_incident(ActionKind::ChannelDelete))
        } else {
            Verdict::Pass(Pass::BelowThreshold)
        },
{
    detect_mass_action(ActionKind::ChannelDelete, guild_id, tracker, now, threshold)
}

/// The number of active threads that a community may hold: a thread made
/// beyond it is deleted.
pub const THREAD_LIMIT: usize = 49;

/// How many threads a list of active threads holds; 0 for a list that is no
/// array.
pub open spec fn threads_in(threads: Json) -> nat {
    match threads {
        Json::Array(items) => items.len(),
        _ => 0,
    }
}

/// Counts the threads in a list of active threads.
pub fn active_thread_count(threads: &serde_json::Value) -> (count: usize)
    ensures
        count == threads_in(tree(*threads)),
{
    match as_items(threads) {
        Some(items) => items.len(),
        None => 0,
    }
}

/// Where the thread lock stands on one new thread.
#[derive(Clone, Copy, PartialEq, Eq, Structural, Debug)]
pub enum LockStep {
    /// Waiting to learn the bot's own identity.
    AwaitingIdentity,
    /// Waiting for the count of the community's active threads.
    AwaitingThreads,
    /// Waiting for the thread to be deleted.
    AwaitingDelete,
    /// Nothing is left to do.
    Done,
}

/// How the thread lock ended.
#[derive(Clone, Copy, PartialEq, Eq, Structural, Debug)]
pub enum LockOutcome {
    /// The owner is on the whitelist or an admin.
    OwnerExempt,
    /// The owner is the bot itself.
    OwnerIsBot,
    /// The active threads could not be counted.
    ThreadsUnknown,
    /// The community holds no more threads than the limit.
    UnderLimit,
    /// The thread was deleted.
    Deleted,
    /// The deletion was refused.
    DeleteFailed,
}

/// What the caller reports back to the thread lock.
#[derive(PartialEq, Eq, Debug)]
pub enum LockEvent {
    /// The bot's own id, or `None` where it could not be learned.
    IdentityFetched(Option<String>),
    /// How many active threads the community holds, or `None` where they
    /// could not be fetched.
    ThreadsFetched(Option<usize>),
    /// The thread was deleted, or the deletion refused.
    DeleteFinished(bool),
}

/// What the caller is to do next for the thread lock.
#[derive(Clone, Copy, PartialEq, Eq, Structural, Debug)]
pub enum LockAction {
    /// Ask who the bot is, then report `IdentityFetched`.
    FetchIdentity,
    /// Fetch the community's active threads, then report `ThreadsFetched`.
    FetchActiveThreads,
    /// Delete the thread, then report `DeleteFinished`.
    DeleteThread,
    /// The thread lock is through with this thread.
    Finish(LockOutcome),
    /// The event was not the one waited for: go on waiting.
    Wait,
}

/// The thread lock's work on one new thread.
pub struct ThreadLock {
    guild_id: String,
    thread_id: String,
    owner_id: String,
    step: LockStep,
}

/// The step and the action that follow from a step and an event, for a
/// thread owned by `owner`.
pub open spec fn lock_next(step: LockStep, owner: Seq<char>, event: LockEvent) -> (
    LockStep,
    LockAction,
) {
    match (step, event) {
        (LockStep::AwaitingIdentity, LockEvent::IdentityFetched(Some(bot))) => if bot@ == owner {
            (LockStep::Done, LockAction::Finish(LockOutcome::OwnerIsBot))
        } else {
            (LockStep::AwaitingThreads, LockAction::FetchActiveThreads)
        },
        (LockStep::AwaitingIdentity, LockEvent::IdentityFetched(None)) => (
            LockStep::AwaitingThreads,
            LockAction::FetchActiveThreads,
        ),
        (LockStep::AwaitingThreads, LockEvent::ThreadsFetched(Some(count))) => if count
            > THREAD_LIMIT {
            (LockStep::AwaitingDelete, LockAction::DeleteThread)
        } else {
            (LockStep::Done, LockAction::Finish(LockOutcome::UnderLimit))
        },
        (LockStep::AwaitingThreads, LockEvent::ThreadsFetched(None)) => (
            LockStep::Done,
            LockAction::Finish(LockOutcome::ThreadsUnknown),
        ),
        (LockStep::AwaitingDelete, LockEvent::DeleteFinished(done)) => (
            LockStep::Done,
            LockAction::Finish(
                if done {
                    LockOutcome::Deleted
                } else {
                    LockOutcome::DeleteFailed
                },
            ),
        ),
        _ => (step, LockAction::Wait),
    }
}

/// A thread is deleted only where the community was found to hold more
/// active threads than the limit.
pub proof fn lemma_delete_needs_the_limit(step: LockStep, owner: Seq<char>, event: LockEvent)
    ensures
        lock_next(step, owner, event).1 == LockAction::DeleteThread ==> {
            &&& step == LockStep::AwaitingThreads
            &&& event matches LockEvent::ThreadsFetched(Some(count))
            &&& count > THREAD_LIMIT
        },
{
}

impl ThreadLock {
    /// The community in which the thread was made.
    pub closed spec fn community(&self) -> Seq<char> {
        self.guild_id@
    }

    /// The thread.
    pub closed spec fn thread(&self) -> Seq<char> {
        self.thread_id@
    }

    /// The owner of the thread.
    pub closed spec fn owner(&self) -> Seq<char> {
        self.owner_id@
    }

    /// Where the thread lock stands.
    pub closed spec fn step(&self) -> LockStep {
        self.step
    }

    /// Takes up a new thread. A thread of an owner who is on the whitelist
    /// or an admin is left alone at once; for any other the bot's own
    /// identity is asked for first.
    pub fn new(data: &EventData, db: &Database) -> (r: (ThreadLock, LockAction))
        ensures
            r.0.community() == data.guild_id@,
            r.0.thread() == data.id@,
            r.0.owner() == data.owner_id@,
            db.exempt(data.owner_id@) ==> r.0.step() == LockStep::Done && r.1 == LockAction::Finish(
                LockOutcome::OwnerExempt,
            ),
            !db.exempt(data.owner_id@) ==> r.0.step() == LockStep::AwaitingIdentity && r.1
                == LockAction::FetchIdentity,
    {
        let exempt = db.is_exempt(data.owner_id.as_str());
        let lock = ThreadLock {
            guild_id: data.guild_id.clone(),
            thread_id: data.id.clone(),
            owner_id: data.owner_id.clone(),
            step: if exempt {
                LockStep::Done
            } else {
                LockStep::AwaitingIdentity
            },
        };
        if exempt {
            (lock, LockAction::Finish(LockOutcome::OwnerExempt))
        } else {
            (lock, LockAction::FetchIdentity)
        }
    }

    /// The community in which the thread was made.
    pub fn guild_id(&self) -> (s: &str)
        ensures
            s@ == self.community(),
    {
        self.guild_id.as_str()
    }

    /// The thread.
    pub fn thread_id(&self) -> (s: &str)
        ensures
            s@ == self.thread(),
    {
        self.thread_id.as_str()
    }

    /// The owner of the thread.
    pub fn owner_id(&self) -> (s: &str)
        ensures
            s@ == self.owner(),
    {
        self.owner_id.as_str()
    }

    /// Whether nothing is left to do.
    pub fn is_done(&self) -> (done: bool)
        ensures
            done == (self.step() == LockStep::Done),
    {
        match self.step {
            LockStep::Done => true,
            _ => false,
        }
    }
}

/// Takes the thread lock one step further on an event and says what to do
/// next.
///
/// A thread of the bot itself is left alone. For any other the community's
/// active threads are counted, and the thread is deleted where there are
/// more of them than the limit. Where they cannot be counted nothing is
/// deleted. An event that the lock is not waiting for changes nothing.
pub fn handle_thread_lock(lock: &mut ThreadLock, event: &LockEvent) -> (action: LockAction)
    ensures
        final(lock).community() == old(lock).community(),
        final(lock).thread() == old(lock).thread(),
        final(lock).owner() == old(lock).owner(),
        (final(lock).step(), action) == lock_next(old(lock).step(), old(lock).owner(), *event),
{
    match lock.step {
        LockStep::AwaitingIdentity => match event {
            LockEvent::IdentityFetched(Some(bot)) => {
                if str_eq(bot.as_str(), lock.owner_id.as_str()) {
                    lock.step = LockStep::Done;
                    LockAction::Finish(LockOutcome::OwnerIsBot)
                } else {
                    lock.step = LockStep::AwaitingThreads;
                    LockAction::FetchActiveThreads
                }
            },
            LockEvent::IdentityFetched(None) => {
                lock.step = LockStep::AwaitingThreads;
                LockAction::FetchActiveThreads
            },
            _ => LockAction::Wait,
        },
        LockStep::AwaitingThreads => match event {
            LockEvent::ThreadsFetched(Some(count)) => {
                if *count > THREAD_LIMIT {
                    lock.step = LockStep::AwaitingDelete;
                    LockAction::DeleteThread
                } else {
                    lock.step = LockStep::Done;
                    LockAction::Finish(LockOutcome::UnderLimit)
                }
            },
            LockEvent::ThreadsFetched(None) => {
                lock.step = LockStep::Done;
                LockAction::Finish(LockOutcome::ThreadsUnknown)
            },
            _ => LockAction::Wait,
        },
        LockStep::AwaitingDelete => match event {
            LockEvent::DeleteFinished(done) => {
                lock.step = LockStep::Done;
                if *done {
                    LockAction::Finish(LockOutcome::Deleted)
                } else {
                    LockAction::Finish(LockOutcome::DeleteFailed)
                }
            },
            _ => LockAction::Wait,
        },
        LockStep::Done => LockAction::Wait,
    }
}

} // verus!
