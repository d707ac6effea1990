//! Sliding windows of action timestamps.
//!
//! Time is a count of milliseconds on a clock that never runs backwards.

use std::collections::VecDeque;
use vstd::hash_map::StringHashMap;
use vstd::prelude::*;

verus! {

/// Length of the sliding window, in milliseconds.
pub const WINDOW_MS: u64 = 10_000;

/// A timestamp `t` has left a window of length `window` by the time `now`.
pub open spec fn expired(t: u64, now: u64, window: u64) -> bool {
    now - t >= window
}

/// The timestamps never decrease from front to back.
pub open spec fn ascending(s: Seq<u64>) -> bool {
    forall|i: int, j: int| 0 <= i <= j < s.len() ==> s[i] <= s[j]
}

/// Every timestamp lies at most `now` and less than `window` before it.
pub open spec fn all_recent(s: Seq<u64>, now: u64, window: u64) -> bool {
    forall|i: int| 0 <= i < s.len() ==> s[i] <= now && now - s[i] < window
}

/// How many timestamps at the front of `s` have expired.
pub open spec fn stale_prefix(s: Seq<u64>, now: u64, window: u64) -> nat
    decreases s.len(),
{
    if s.len() == 0 || !expired(s[0], now, window) {
        0
    } else {
        1 + stale_prefix(s.skip(1), now, window)
    }
}

/// `s` without the expired timestamps at its front.
pub open spec fn pruned(s: Seq<u64>, now: u64, window: u64) -> Seq<u64> {
    s.skip(stale_prefix(s, now, window) as int)
}

/// The stale prefix never reaches past the end of the sequence.
pub proof fn lemma_stale_prefix_bound(s: Seq<u64>, now: u64, window: u64)
    ensures
        stale_prefix(s, now, window) <= s.len(),
    decreases s.len(),
{
    if s.len() != 0 && expired(s[0], now, window) {
        lemma_stale_prefix_bound(s.skip(1), now, window);
    }
}

/// Pruning one expired timestamp from the front and then the rest is
/// pruning the whole.
proof fn lemma_pruned_step(s: Seq<u64>, now: u64, window: u64)
    requires
        s.len() > 0,
        expired(s[0], now, window),
    ensures
        pruned(s, now, window) == pruned(s.skip(1), now, window),
{
    lemma_stale_prefix_bound(s.skip(1), now, window);
    let k = stale_prefix(s.skip(1), now, window) as int;
    assert(s.skip(1).skip(k) =~= s.skip(1 + k));
}

/// What pruning keeps of an ascending sequence, none of it later than `now`,
/// is ascending and lies wholly inside the window.
pub proof fn lemma_pruned_recent(s: Seq<u64>, now: u64, window: u64)
    requires
        ascending(s),
        forall|i: int| 0 <= i < s.len() ==> s[i] <= now,
    ensures
        ascending(pruned(s, now, window)),
        all_recent(pruned(s, now, window), now, window),
    decreases s.len(),
{
    if s.len() != 0 && expired(s[0], now, window) {
        let rest = s.skip(1);
        assert forall|i: int, j: int| 0 <= i <= j < rest.len() implies rest[i] <= rest[j] by {
            assert(rest[i] == s[i + 1] && rest[j] == s[j + 1]);
        }
        assert forall|i: int| 0 <= i < rest.len() implies rest[i] <= now by {
            assert(rest[i] == s[i + 1]);
        }
        lemma_pruned_recent(rest, now, window);
        lemma_pruned_step(s, now, window);
    } else {
        assert(pruned(s, now, window) =~= s);
        if s.len() != 0 {
            assert forall|i: int| 0 <= i < s.len() implies now - s[i] < window by {
                assert(s[0] <= s[i]);
            }
        }
    }
}

/// What a window of length `window` retains after the actions at `times`,
/// appended one by one and pruned after each.
pub open spec fn replay(times: Seq<u64>, window: u64) -> Seq<u64>
    decreases times.len(),
{
    if times.len() == 0 {
        Seq::empty()
    } else {
        pruned(replay(times.drop_last(), window).push(times.last()), times.last(), window)
    }
}

/// After any sequence of appends at times that never decrease, each followed
/// by a prune, the retained timestamps are ascending and every one of them
/// lies less than `window` before the time of the last append.
pub proof fn lemma_replay_invariant(times: Seq<u64>, window: u64)
    requires
        ascending(times),
    ensures
        ascending(replay(times, window)),
        times.len() > 0 ==> all_recent(replay(times, window), times.last(), window),
        forall|i: int|
            0 <= i < replay(times, window).len() ==> times.contains(
                #[trigger] replay(times, window)[i],
            ),
    decreases times.len(),
{
    if times.len() > 0 {
        let earlier = times.drop_last();
        let now = times.last();
        assert forall|i: int, j: int| 0 <= i <= j < earlier.len() implies earlier[i]
            <= earlier[j] by {
            assert(earlier[i] == times[i] && earlier[j] == times[j]);
        }
        lemma_replay_invariant(earlier, window);
        let kept = replay(earlier, window);
        let appended = kept.push(now);
        assert forall|i: int| 0 <= i < appended.len() implies appended[i] <= now
            && times.contains(#[trigger] appended[i]) by {
            if i < kept.len() {
                assert(earlier.contains(kept[i]));
                let k = choose|k: int| 0 <= k < earlier.len() && earlier[k] == kept[i];
                assert(times[k] == kept[i]);
                assert(times[k] <= times[times.len() - 1]);
            } else {
                assert(times[times.len() - 1] == now);
            }
        }
        assert forall|i: int, j: int| 0 <= i <= j < appended.len() implies appended[i]
            <= appended[j] by {
            if j < kept.len() {
                assert(appended[i] == kept[i] && appended[j] == kept[j]);
            }
        }
        lemma_pruned_recent(appended, now, window);
        lemma_stale_prefix_bound(appended, now, window);
        let after = replay(times, window);
        assert forall|i: int| 0 <= i < after.len() implies times.contains(#[trigger] after[i]) by {
            assert(after[i] == appended[i + stale_prefix(appended, now, window)]);
        }
    }
}

/// The timestamps of one kind of action in one community, oldest first.
pub struct ActionWindow {
    entries: VecDeque<u64>,
    window_ms: u64,
    now: u64,
}

impl View for ActionWindow {
    type V = Seq<u64>;

    closed spec fn view(&self) -> Seq<u64> {
        self.entries@
    }
}

impl ActionWindow {
    /// The length of the window, fixed when it was made.
    pub closed spec fn window(&self) -> u64 {
        self.window_ms
    }

    /// The time of the last append.
    pub closed spec fn clock(&self) -> u64 {
        self.now
    }

    /// The retained timestamps are ascending and all lie inside the window
    /// that ends at the time of the last append.
    pub open spec fn wf(&self) -> bool {
        &&& ascending(self@)
        &&& all_recent(self@, self.clock(), self.window())
    }

    /// An empty window of length `window_ms`.
    pub fn new(window_ms: u64) -> (w: ActionWindow)
        ensures
            w.wf(),
            w@ == Seq::<u64>::empty(),
            w.window() == window_ms,
            w.clock() == 0,
    {
        ActionWindow { entries: VecDeque::new(), window_ms, now: 0 }
    }

    /// Number of retained timestamps.
    pub fn len(&self) -> (n: usize)
        ensures
            n == self@.len(),
    {
        self.entries.len()
    }

    /// The length of the window in milliseconds.
    pub fn window_ms(&self) -> (w: u64)
        ensures
            w == self.window(),
    {
        self.window_ms
    }

    /// The time of the last append, 0 before the first.
    pub fn latest(&self) -> (t: u64)
        ensures
            t == self.clock(),
    {
        self.now
    }

    /// The retained timestamps, oldest first.
    pub fn timestamps(&self) -> (v: Vec<u64>)
        ensures
            v@ == self@,
    {
        let mut v: Vec<u64> = Vec::new();
        let mut i: usize = 0;
        while i < self.entries.len()
            invariant
                i <= self.entries@.len(),
                v@ == self.entries@.take(i as int),
            decreases self.entries@.len() - i,
        {
            v.push(self.entries[i]);
            assert(self.entries@.take(i + 1) =~= self.entries@.take(i as int).push(
                self.entries@[i as int],
            ));
            i += 1;
        }
        assert(self.entries@.take(self.entries@.len() as int) =~= self.entries@);
        v
    }

    /// A window with the same contents.
    pub fn duplicate(&self) -> (w: ActionWindow)
        ensures
            w@ == self@,
            w.window() == self.window(),
            w.clock() == self.clock(),
    {
        let mut entries: VecDeque<u64> = VecDeque::new();
        let mut i: usize = 0;
        while i < self.entries.len()
            invariant
                i <= self.entries@.len(),
                entries@ == self.entries@.take(i as int),
            decreases self.entries@.len() - i,
        {
            entries.push_back(self.entries[i]);
            assert(self.entries@.take(i + 1) =~= self.entries@.take(i as int).push(
                self.entries@[i as int],
            ));
            i += 1;
        }
        assert(self.entries@.take(self.entries@.len() as int) =~= self.entries@);
        ActionWindow { entries, window_ms: self.window_ms, now: self.now }
    }

    /// Appends `now` and drops from the front every timestamp that has left
    /// the window.
    pub fn record(&mut self, now: u64)
        requires
            old(self).wf(),
            now >= old(self).clock(),
        ensures
            final(self).wf(),
            final(self)@ == pruned(old(self)@.push(now), now, old(self).window()),
            final(self).window() == old(self).window(),
            final(self).clock() == now,
    {
        let ghost appended = self.entries@.push(now);
        self.entries.push_back(now);
        self.now = now;
        proof {
            assert forall|i: int, j: int| 0 <= i <= j < appended.len() implies appended[i]
                <= appended[j] by {
                if j < appended.len() - 1 {
                    assert(appended[i] == old(self)@[i] && appended[j] == old(self)@[j]);
                }
            }
            lemma_pruned_recent(appended, now, self.window_ms);
        }
        while self.entries.len() > 0 && now - self.entries[0] >= self.window_ms
            invariant
                self.now == now,
                self.window_ms == old(self).window_ms,
                forall|i: int| 0 <= i < self.entries@.len() ==> self.entries@[i] <= now,
                pruned(self.entries@, now, self.window_ms) == pruned(appended, now, self.window_ms),
            decreases self.entries@.len(),
        {
            proof {
                lemma_pruned_step(self.entries@, now, self.window_ms);
            }
            let ghost before = self.entries@;
            self.entries.pop_front();
            assert(self.entries@ =~= before.skip(1));
        }
        assert(pruned(self.entries@, now, self.window_ms) =~= self.entries@);
    }
}

/// The kinds of action that are counted in a sliding window.
#[derive(Clone, Copy, PartialEq, Eq, Structural, Debug)]
pub enum ActionKind {
    Ban,
    Kick,
    ChannelDelete,
}

/// Every window of `m` is well formed, has length `window_ms` and was last
/// appended to no later than `now`.
pub open spec fn windows_wf(m: Map<Seq<char>, ActionWindow>, window_ms: u64, now: u64) -> bool {
    forall|c: Seq<char>| #[trigger]
        m.contains_key(c) ==> m[c].wf() && m[c].window() == window_ms && m[c].clock() <= now
}

/// The timestamps that `m` retains for community `c`: none where it holds no
/// window for it.
pub open spec fn retained(m: Map<Seq<char>, ActionWindow>, c: Seq<char>) -> Seq<u64> {
    if m.contains_key(c) {
        m[c]@
    } else {
        Seq::empty()
    }
}

/// Appends `now` to the window of `community` in `m`, making the window first
/// where there is none, and returns how many timestamps the window retains.
fn observe_in(
    m: &mut StringHashMap<ActionWindow>,
    community: &str,
    now: u64,
    window_ms: u64,
    Ghost(clock): Ghost<u64>,
) -> (count: usize)
    requires
        windows_wf(old(m)@, window_ms, clock),
        now >= clock,
    ensures
        windows_wf(final(m)@, window_ms, now),
        retained(final(m)@, community@) == pruned(
            retained(old(m)@, community@).push(now),
            now,
            window_ms,
        ),
        count == retained(final(m)@, community@).len(),
        forall|c: Seq<char>| c != community@ ==> retained(final(m)@, c) == retained(old(m)@, c),
{
    let mut w = match m.get(community) {
        Some(found) => found.duplicate(),
        None => ActionWindow::new(window_ms),
    };
    assert(w@ == retained(m@, community@));
    w.record(now);
    let count = w.len();
    m.insert(community.to_owned(), w);
    assert forall|c: Seq<char>| c != community@ implies retained(m@, c) == retained(old(m)@, c) by {
        assert(m@.contains_key(c) == old(m)@.contains_key(c));
    }
    count
}

/// The sliding windows of all communities, one per community and kind of
/// action, made when the first action of that kind is seen there.
pub struct ActionTracker {
    bans: StringHashMap<ActionWindow>,
    kicks: StringHashMap<ActionWindow>,
    channel_deletes: StringHashMap<ActionWindow>,
    window_ms: u64,
    now: u64,
}

impl ActionTracker {
    /// The length of every window, fixed when the tracker was made.
    pub closed spec fn window(&self) -> u64 {
        self.window_ms
    }

    /// The time of the last action seen, 0 before the first.
    pub closed spec fn clock(&self) -> u64 {
        self.now
    }

    /// The timestamps retained for actions of `kind` in `community`, oldest
    /// first.
    pub closed spec fn history(&self, kind: ActionKind, community: Seq<char>) -> Seq<u64> {
        match kind {
            ActionKind::Ban => retained(self.bans@, community),
            ActionKind::Kick => retained(self.kicks@, community),
            ActionKind::ChannelDelete => retained(self.channel_deletes@, community),
        }
    }

    /// Every window is well formed with respect to the tracker's clock.
    pub closed spec fn wf(&self) -> bool {
        &&& windows_wf(self.bans@, self.window_ms, self.now)
        &&& windows_wf(self.kicks@, self.window_ms, self.now)
        &&& windows_wf(self.channel_deletes@, self.window_ms, self.now)
    }

    /// Whatever was observed so far, the timestamps that a well-formed
    /// tracker retains for a community and a kind of action are ascending,
    /// and every one of them lies less than a window before the time at which
    /// the last of them was appended, which is no later than the tracker's
    /// clock.
    pub proof fn lemma_history_invariant(&self, kind: ActionKind, community: Seq<char>)
        requires
            self.wf(),
        ensures
            ascending(self.history(kind, community)),
            exists|now: u64|
                now <= self.clock() && #[trigger] all_recent(
                    self.history(kind, community),
                    now,
                    self.window(),
                ),
    {
        let m = match kind {
            ActionKind::Ban => self.bans@,
            ActionKind::Kick => self.kicks@,
            ActionKind::ChannelDelete => self.channel_deletes@,
        };
        if m.contains_key(community) {
            assert(all_recent(self.history(kind, community), m[community].clock(), self.window()));
        } else {
            assert(all_recent(self.history(kind, community), self.clock(), self.window()));
        }
    }

    /// A tracker without any window, for windows of length `window_ms`.
    pub fn new(window_ms: u64) -> (t: ActionTracker)
        ensures
            t.wf(),
            t.window() == window_ms,
            t.clock() == 0,
            forall|kind: ActionKind, c: Seq<char>| t.history(kind, c) == Seq::<u64>::empty(),
    {
        ActionTracker {
            bans: StringHashMap::new(),
            kicks: StringHashMap::new(),
            channel_deletes: StringHashMap::new(),
            window_ms,
            now: 0,
        }
    }

    /// The length of every window in milliseconds.
    pub fn window_ms(&self) -> (w: u64)
        ensures
            w == self.window(),
    {
        self.window_ms
    }

    /// The time of the last action seen.
    pub fn latest(&self) -> (t: u64)
        ensures
            t == self.clock(),
    {
        self.now
    }

    /// How many timestamps are retained for actions of `kind` in `community`.
    pub fn count(&self, kind: ActionKind, community: &str) -> (n: usize)
        ensures
            n == self.history(kind, community@).len(),
    {
        let found = match kind {
            ActionKind::Ban => self.bans.get(community),
            ActionKind::Kick => self.kicks.get(community),
            ActionKind::ChannelDelete => self.channel_deletes.get(community),
        };
        match found {
            Some(w) => w.len(),
            None => 0,
        }
    }

    /// Records an action of `kind` in `community` at time `now`: appends `now`
    /// to that window, prunes it, and returns how many timestamps it retains.
    /// No other window changes.
    pub fn observe(&mut self, kind: ActionKind, community: &str, now: u64) -> (count: usize)
        requires
            old(self).wf(),
            now >= old(self).clock(),
        ensures
            final(self).wf(),
            final(self).window() == old(self).window(),
            final(self).clock() == now,
            final(self).history(kind, community@) == pruned(
                old(self).history(kind, community@).push(now),
                now,
                old(self).window(),
            ),
            count == final(self).history(kind, community@).len(),
            forall|k: ActionKind, c: Seq<char>|
                k != kind || c != community@ ==> #[trigger] final(self).history(k, c) == old(
                    self,
                ).history(k, c),
    {
        let window_ms = self.window_ms;
        let ghost clock = self.now;
        let count = match kind {
            ActionKind::Ban => observe_in(&mut self.bans, community, now, window_ms, Ghost(clock)),
            ActionKind::Kick => observe_in(
                &mut self.kicks,
                community,
                now,
                window_ms,
                Ghost(clock),
            ),
            ActionKind::ChannelDelete => observe_in(
                &mut self.channel_deletes,
                community,
                now,
                window_ms,
                Ghost(clock),
            ),
        };
        self.now = now;
        count
    }
}

} // verus!
