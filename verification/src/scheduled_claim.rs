//! The decisions of the scheduled daily-reward claim: which games a failed
//! round queues for a retry and when, which wake-up comes first, what a wake
//! reason asks of the loop, and whether a claim response registered.
//!
//! Instants are whole seconds since the Unix epoch. The loop that sleeps,
//! calls the APIs and reads the clock lives with the application; it hands
//! these functions what it observed and does what they return.

use vstd::prelude::*;
use std::ops::ControlFlow;
use crate::claim_time::{claim_minutes, next_claim_after, next_claim_at, ClaimTime};
use crate::clock::{jiff_max_second, jiff_min_second, jiff_saturating_add_seconds};
use crate::daily_reward::ClaimResult;
use crate::game_id::{all_games, GameId};
use crate::hoyolab::error::{recoverable, Error};
use crate::text::join2;

verus! {

/// How many failed rounds a game is retried for before it is dropped.
pub const MAX_CLAIM_RETRIES: u32 = 3;

/// Delay between a failed round and its retry, in seconds (ten minutes).
pub const CLAIM_RETRY_DELAY_SECONDS: i64 = 600;

/// Why the scheduler woke up from a sleep.
#[derive(Debug, Clone, Copy, PartialEq, Eq, Structural)]
pub enum WakeReason {
    /// The cancellation token was triggered (app shutdown).
    Cancelled,
    /// Config changed: re-read state and re-run startup claims.
    ConfigChanged,
    /// The timer expired normally.
    TimerExpired,
}

/// What the scheduler should do after a non-terminal wake.
#[derive(Debug, Clone, Copy, PartialEq, Eq, Structural)]
pub enum PostWake {
    /// Re-run startup claims before resuming the loop (config changed).
    Rerun,
    /// Resume the loop normally (timer expired).
    Resume,
}

/// The loop's next step for each wake reason.
pub open spec fn wake_step(reason: WakeReason) -> ControlFlow<(), PostWake> {
    match reason {
        WakeReason::Cancelled => ControlFlow::Break(()),
        WakeReason::ConfigChanged => ControlFlow::Continue(PostWake::Rerun),
        WakeReason::TimerExpired => ControlFlow::Continue(PostWake::Resume),
    }
}

/// Maps a wake reason to the loop's next control-flow step: `Break` stops
/// the scheduler (cancellation); `Continue` keeps looping, with what the
/// caller should do first.
pub fn handle_wake_reason(reason: &WakeReason) -> (r: ControlFlow<(), PostWake>)
    ensures
        r == wake_step(*reason),
{
    match reason {
        WakeReason::Cancelled => ControlFlow::Break(()),
        WakeReason::ConfigChanged => ControlFlow::Continue(PostWake::Rerun),
        WakeReason::TimerExpired => ControlFlow::Continue(PostWake::Resume),
    }
}

/// The message of a claim response that did not register.
pub open spec fn unregistered_message(result: ClaimResult) -> Seq<char> {
    "claim did not register: "@ + match result.message {
        Some(m) => m@,
        None => "no message"@,
    }
}

/// Requires the claim response to report a recorded reward.
///
/// Reads `info.is_signed` rather than `success`: a registered claim can lack
/// reward details, while an unsigned response did not record the claim.
pub fn ensure_claim_registered(result: &ClaimResult) -> (r: Result<(), String>)
    ensures
        r is Ok <==> result.info.is_signed,
        r matches Err(m) ==> m@ == unregistered_message(*result),
{
    if result.info.is_signed {
        Ok(())
    } else {
        let m = match &result.message {
            Some(m) => join2("claim did not register: ", m.as_str()),
            None => join2("claim did not register: ", "no message"),
        };
        proof {
            reveal_strlit("claim did not register: ");
        }
        let r = Err(m);
        r
    }
}

/// Whether a failed claim is worth retrying: a failure that carries no
/// HoYoLab error is; one that does is when the error is recoverable.
pub fn is_recoverable(error: Option<&Error>) -> (b: bool)
    ensures
        b == match error {
            None => true,
            Some(e) => recoverable(*e),
        },
{
    match error {
        None => true,
        Some(e) => e.is_recoverable(),
    }
}


/// The slot in which a game's retry count is kept.
pub open spec fn game_slot(g: GameId) -> int {
    match g {
        GameId::GenshinImpact => 0,
        GameId::HonkaiStarRail => 1,
        GameId::ZenlessZoneZero => 2,
        GameId::WutheringWaves => 3,
    }
}

fn slot_of(g: GameId) -> (i: usize)
    ensures
        i == game_slot(g),
{
    match g {
        GameId::GenshinImpact => 0,
        GameId::HonkaiStarRail => 1,
        GameId::ZenlessZoneZero => 2,
        GameId::WutheringWaves => 3,
    }
}

/// The retry counts held in four slots, as a map from game to count.
pub open spec fn counts_of(slots: Seq<Option<u32>>) -> Map<GameId, u32> {
    Map::new(|g: GameId| slots[game_slot(g)] is Some, |g: GameId| slots[game_slot(g)]->0)
}

/// No game is queued.
pub open spec fn nothing_queued(m: Map<GameId, u32>) -> bool {
    forall|g: GameId| !m.dom().contains(g)
}

/// The failed rounds a game has spent so far (0 when it is not queued).
pub open spec fn spent(m: Map<GameId, u32>, g: GameId) -> int {
    if m.dom().contains(g) { m[g] as int } else { 0 }
}

/// One attempted game of a round: a failure spends one more retry and keeps
/// the game queued while the budget lasts; a success, or a spent budget,
/// drops it.
pub open spec fn record_one(m: Map<GameId, u32>, g: GameId, failed: Seq<GameId>) -> Map<GameId, u32> {
    if failed.contains(g) && spent(m, g) + 1 <= MAX_CLAIM_RETRIES {
        m.insert(g, (spent(m, g) + 1) as u32)
    } else {
        m.remove(g)
    }
}

/// The retry counts after a round that attempted `attempted` (in order) and
/// in which the games of `failed` failed recoverably.
pub open spec fn record_attempts(
    m: Map<GameId, u32>,
    attempted: Seq<GameId>,
    failed: Seq<GameId>,
) -> Map<GameId, u32>
    decreases attempted.len(),
{
    if attempted.len() == 0 {
        m
    } else {
        record_one(record_attempts(m, attempted.drop_last(), failed), attempted.last(), failed)
    }
}

/// The instant a retry is due after a failure at `now`: ten minutes later,
/// saturating at the latest instant; none for an instant out of range.
pub open spec fn retry_due(now: int) -> Option<int> {
    if jiff_min_second() <= now <= jiff_max_second() {
        Some(
            if now + CLAIM_RETRY_DELAY_SECONDS <= jiff_max_second() {
                now + CLAIM_RETRY_DELAY_SECONDS
            } else {
                jiff_max_second()
            },
        )
    } else {
        None
    }
}

/// The due instant after a round: a failure brings it forward to the retry
/// instant, never later than it was; it is cleared when nothing is queued.
pub open spec fn record_due(
    due: Option<i64>,
    counts: Map<GameId, u32>,
    any_failed: bool,
    now: int,
) -> Option<i64> {
    if nothing_queued(counts) {
        None
    } else if any_failed && retry_due(now) is Some {
        let next = retry_due(now)->0;
        match due {
            Some(d) => Some(if next < d { next as i64 } else { d }),
            None => Some(next as i64),
        }
    } else {
        due
    }
}

/// The queued games in the fixed game order.
pub open spec fn queued_games(m: Map<GameId, u32>) -> Seq<GameId> {
    all_games().filter(|g: GameId| m.dom().contains(g))
}

/// Games whose scheduled claim failed recoverably, with how many failed
/// rounds each has spent, and the instant the next retry is due.
#[derive(Debug)]
pub struct RetryQueue {
    slots: Vec<Option<u32>>,
    due: Option<i64>,
}

impl RetryQueue {
    /// Failed rounds spent per queued game.
    pub closed spec fn counts(&self) -> Map<GameId, u32> {
        counts_of(self.slots@)
    }

    /// The instant the next retry is due.
    pub closed spec fn due_at(&self) -> Option<i64> {
        self.due
    }

    /// One slot per game; a queued game has spent between one and the
    /// maximum number of retries; nothing is due when nothing is queued.
    #[verifier::type_invariant]
    closed spec fn well_formed(self) -> bool {
        &&& self.slots@.len() == 4
        &&& forall|i: int| 0 <= i < 4 && #[trigger] self.slots@[i] is Some ==>
                1 <= self.slots@[i]->0 <= MAX_CLAIM_RETRIES
        &&& nothing_queued(counts_of(self.slots@)) ==> self.due is None
    }

    /// An empty queue.
    pub fn new() -> (q: Self)
        ensures
            nothing_queued(q.counts()),
            q.due_at() is None,
    {
        RetryQueue { slots: vec![None, None, None, None], due: None }
    }

    fn copy_slots(&self) -> (v: Vec<Option<u32>>)
        ensures
            v@ == self.slots@,
    {
        proof {
            use_type_invariant(self);
        }
        let v = vec![self.slots[0], self.slots[1], self.slots[2], self.slots[3]];
        assert(v@ =~= self.slots@);
        v
    }
    /// Records a claim round: each attempted game, in order, spends one more
    /// retry if it failed and stays queued while the budget lasts, and is
    /// dropped otherwise; games the round did not attempt keep their count.
    /// A failure brings the due instant forward to ten minutes after `now`
    /// (never pushing it later); nothing is due once nothing is queued.
    pub fn record(&mut self, attempted: &[GameId], failed: &[GameId], now: i64)
        ensures
            final(self).counts() == record_attempts(old(self).counts(), attempted@, failed@),
            final(self).due_at() == record_due(
                old(self).due_at(),
                final(self).counts(),
                failed@.len() > 0,
                now as int,
            ),
            forall|g: GameId| #[trigger] final(self).counts().dom().contains(g)
                ==> 1 <= final(self).counts()[g] <= MAX_CLAIM_RETRIES,
            old(self).due_at() is Some && final(self).due_at() is Some
                ==> final(self).due_at()->0 <= old(self).due_at()->0,
    {
        proof {
            use_type_invariant(&*self);
        }
        let ghost start = self.counts();
        let mut slots = self.copy_slots();
        let mut i: usize = 0;
        while i < attempted.len()
            invariant
                0 <= i <= attempted@.len(),
                slots@.len() == 4,
                forall|k: int| 0 <= k < 4 && #[trigger] slots@[k] is Some
                    ==> 1 <= slots@[k]->0 <= MAX_CLAIM_RETRIES,
                counts_of(slots@) == record_attempts(start, attempted@.take(i as int), failed@),
            decreases attempted@.len() - i,
        {
            let g = attempted[i];
            let k = slot_of(g);
            let ghost prev = counts_of(slots@);
            let is_failed = contains_game(failed, g);
            let before: u32 = match slots[k] {
                Some(n) => n,
                None => 0,
            };
            assert(before == spent(prev, g));
            if is_failed && before + 1 <= MAX_CLAIM_RETRIES {
                slots.set(k, Some(before + 1));
            } else {
                slots.set(k, None);
            }
            proof {
                assert(attempted@.take(i + 1).drop_last() =~= attempted@.take(i as int));
                assert(attempted@.take(i + 1).last() == g);
                assert(counts_of(slots@) =~= record_one(prev, g, failed@));
            }
            i += 1;
        }
        assert(attempted@.take(attempted@.len() as int) =~= attempted@);
        let mut due = self.due;
        if failed.len() > 0 {
            match jiff_saturating_add_seconds(now, CLAIM_RETRY_DELAY_SECONDS) {
                Some(next) => {
                    due = Some(
                        match due {
                            Some(d) => if next < d { next } else { d },
                            None => next,
                        },
                    );
                },
                None => {},
            }
        }
        if all_empty(&slots) {
            due = None;
        }
        proof {
            assert forall|g: GameId| #[trigger] counts_of(slots@).dom().contains(g)
                implies 1 <= counts_of(slots@)[g] <= MAX_CLAIM_RETRIES by {
                assert(0 <= game_slot(g) < 4);
            }
        }
        *self = RetryQueue { slots, due };
    }

    /// Forgets the given games, restoring their full retry budget; nothing
    /// is due once nothing is queued.
    pub fn clear_games(&mut self, games: &[GameId])
        ensures
            final(self).counts() == old(self).counts().remove_keys(games@.to_set()),
            final(self).due_at() == (if nothing_queued(final(self).counts()) {
                None
            } else {
                old(self).due_at()
            }),
    {
        proof {
            use_type_invariant(&*self);
        }
        let ghost start = self.counts();
        let mut slots = self.copy_slots();
        let mut i: usize = 0;
        while i < games.len()
            invariant
                0 <= i <= games@.len(),
                slots@.len() == 4,
                forall|k: int| 0 <= k < 4 && #[trigger] slots@[k] is Some
                    ==> 1 <= slots@[k]->0 <= MAX_CLAIM_RETRIES,
                forall|x: GameId| #[trigger] counts_of(slots@).dom().contains(x) <==> (
                    start.dom().contains(x) && !games@.take(i as int).contains(x)),
                forall|x: GameId| #[trigger] counts_of(slots@).dom().contains(x)
                    ==> counts_of(slots@)[x] == start[x],
            decreases games@.len() - i,
        {
            let g = games[i];
            let k = slot_of(g);
            let ghost prev = slots@;
            slots.set(k, None);
            proof {
                assert(games@.take(i + 1) =~= games@.take(i as int).push(g));
                assert forall|x: GameId| #[trigger] counts_of(slots@).dom().contains(x) <==> (
                    start.dom().contains(x) && !games@.take(i + 1).contains(x)) by {
                    if x != g {
                        assert(game_slot(x) != game_slot(g));
                        assert(counts_of(prev).dom().contains(x) == counts_of(slots@).dom().contains(x));
                        if games@.take(i + 1).contains(x) {
                            let j = choose|j: int| 0 <= j < i + 1 && #[trigger] games@.take(i + 1)[j] == x;
                            assert(games@.take(i as int)[j] == x);
                        }
                    } else {
                        assert(games@.take(i + 1)[i as int] == g);
                    }
                }
                assert forall|x: GameId| #[trigger] counts_of(slots@).dom().contains(x)
                    implies counts_of(slots@)[x] == start[x] by {
                    assert(x != g);
                    assert(game_slot(x) != game_slot(g));
                    assert(counts_of(prev).dom().contains(x));
                }
            }
            i += 1;
        }
        assert(games@.take(games@.len() as int) =~= games@);
        assert(counts_of(slots@) =~= start.remove_keys(games@.to_set()));
        let mut due = self.due;
        if all_empty(&slots) {
            due = None;
        }
        *self = RetryQueue { slots, due };
    }

    /// The due instant and the queued games (in the fixed game order), or
    /// `None` when no retry is due.
    pub fn pending(&self) -> (r: Option<(i64, Vec<GameId>)>)
        ensures
            match self.due_at() {
                None => r is None,
                Some(d) => r matches Some((t, gs)) && t == d && gs@ == queued_games(self.counts()),
            },
    {
        proof {
            use_type_invariant(self);
        }
        match self.due {
            None => None,
            Some(d) => {
                let mut gs: Vec<GameId> = Vec::new();
                if self.slots[0].is_some() {
                    gs.push(GameId::GenshinImpact);
                }
                if self.slots[1].is_some() {
                    gs.push(GameId::HonkaiStarRail);
                }
                if self.slots[2].is_some() {
                    gs.push(GameId::ZenlessZoneZero);
                }
                if self.slots[3].is_some() {
                    gs.push(GameId::WutheringWaves);
                }
                proof {
                    lemma_queued_games(self.counts());
                }
                Some((d, gs))
            },
        }
    }
}

impl Default for RetryQueue {
    fn default() -> (q: Self)
        ensures
            nothing_queued(q.counts()),
            q.due_at() is None,
    {
        RetryQueue::new()
    }
}

/// The queued games spelled out slot by slot.
proof fn lemma_queued_games(m: Map<GameId, u32>)
    ensures
        queued_games(m) == (if m.dom().contains(GameId::GenshinImpact) {
            seq![GameId::GenshinImpact]
        } else {
            Seq::empty()
        }) + (if m.dom().contains(GameId::HonkaiStarRail) {
            seq![GameId::HonkaiStarRail]
        } else {
            Seq::empty()
        }) + (if m.dom().contains(GameId::ZenlessZoneZero) {
            seq![GameId::ZenlessZoneZero]
        } else {
            Seq::empty()
        }) + (if m.dom().contains(GameId::WutheringWaves) {
            seq![GameId::WutheringWaves]
        } else {
            Seq::empty()
        }),
{
    reveal_with_fuel(Seq::filter, 5);
    let p = |g: GameId| m.dom().contains(g);
    let s = all_games();
    assert(s.drop_last() =~= seq![GameId::GenshinImpact, GameId::HonkaiStarRail, GameId::ZenlessZoneZero]);
    assert(s.drop_last().drop_last() =~= seq![GameId::GenshinImpact, GameId::HonkaiStarRail]);
    assert(s.drop_last().drop_last().drop_last() =~= seq![GameId::GenshinImpact]);
    assert(s.drop_last().drop_last().drop_last().drop_last() =~= Seq::<GameId>::empty());
    assert(queued_games(m) =~= (if m.dom().contains(GameId::GenshinImpact) {
            seq![GameId::GenshinImpact]
        } else {
            Seq::empty()
        }) + (if m.dom().contains(GameId::HonkaiStarRail) {
            seq![GameId::HonkaiStarRail]
        } else {
            Seq::empty()
        }) + (if m.dom().contains(GameId::ZenlessZoneZero) {
            seq![GameId::ZenlessZoneZero]
        } else {
            Seq::empty()
        }) + (if m.dom().contains(GameId::WutheringWaves) {
            seq![GameId::WutheringWaves]
        } else {
            Seq::empty()
        }));
}

/// Whether a game occurs in a list.
fn contains_game(s: &[GameId], g: GameId) -> (r: bool)
    ensures
        r == s@.contains(g),
{
    let mut i: usize = 0;
    while i < s.len()
        invariant
            0 <= i <= s@.len(),
            forall|j: int| 0 <= j < i ==> s@[j] != g,
        decreases s@.len() - i,
    {
        if s[i] == g {
            assert(s@[i as int] == g);
            return true;
        }
        i += 1;
    }
    false
}

/// Whether no slot holds a count.
fn all_empty(slots: &Vec<Option<u32>>) -> (r: bool)
    requires
        slots@.len() == 4,
    ensures
        r == nothing_queued(counts_of(slots@)),
{
    let r = slots[0].is_none() && slots[1].is_none() && slots[2].is_none() && slots[3].is_none();
    proof {
        if !r {
            if slots@[0] is Some {
                assert(counts_of(slots@).dom().contains(GameId::GenshinImpact));
            } else if slots@[1] is Some {
                assert(counts_of(slots@).dom().contains(GameId::HonkaiStarRail));
            } else if slots@[2] is Some {
                assert(counts_of(slots@).dom().contains(GameId::ZenlessZoneZero));
            } else {
                assert(counts_of(slots@).dom().contains(GameId::WutheringWaves));
            }
        } else {
            assert forall|g: GameId| !counts_of(slots@).dom().contains(g) by {
                assert(0 <= game_slot(g) < 4);
            }
        }
    }
    r
}

/// Laws of the retry counts.
///
/// A game that a round does not attempt keeps its count.
pub proof fn lemma_record_leaves_unattempted(
    m: Map<GameId, u32>,
    attempted: Seq<GameId>,
    failed: Seq<GameId>,
    g: GameId,
)
    requires
        !attempted.contains(g),
    ensures
        record_attempts(m, attempted, failed).dom().contains(g) == m.dom().contains(g),
        m.dom().contains(g) ==> record_attempts(m, attempted, failed)[g] == m[g],
    decreases attempted.len(),
{
    if attempted.len() > 0 {
        assert(attempted.last() != g) by {
            assert(attempted[attempted.len() - 1] == attempted.last());
        }
        assert(!attempted.drop_last().contains(g)) by {
            if attempted.drop_last().contains(g) {
                let j = choose|j: int| 0 <= j < attempted.len() - 1 && #[trigger] attempted.drop_last()[j] == g;
                assert(attempted[j] == g);
            }
        }
        lemma_record_leaves_unattempted(m, attempted.drop_last(), failed, g);
    }
}

/// A game attempted once in a round that failed spends one more retry and
/// stays queued while the budget lasts; the failure that would exceed the
/// budget drops it. One that did not fail is dropped.
pub proof fn lemma_record_counts_one_attempt(
    m: Map<GameId, u32>,
    before: Seq<GameId>,
    after: Seq<GameId>,
    failed: Seq<GameId>,
    g: GameId,
)
    requires
        !before.contains(g),
        !after.contains(g),
    ensures
        ({
            let r = record_attempts(m, before.push(g) + after, failed);
            &&& r.dom().contains(g) <==> (failed.contains(g) && spent(m, g) < MAX_CLAIM_RETRIES)
            &&& r.dom().contains(g) ==> r[g] == spent(m, g) + 1
        }),
    decreases after.len(),
{
    if after.len() == 0 {
        assert(before.push(g) + after =~= before.push(g));
        assert(before.push(g).drop_last() =~= before);
        lemma_record_leaves_unattempted(m, before, failed, g);
    } else {
        let all = before.push(g) + after;
        assert(all.drop_last() =~= before.push(g) + after.drop_last());
        assert(all.last() == after.last());
        assert(after.last() != g) by {
            assert(after[after.len() - 1] == after.last());
        }
        assert(!after.drop_last().contains(g)) by {
            if after.drop_last().contains(g) {
                let j = choose|j: int| 0 <= j < after.len() - 1 && #[trigger] after.drop_last()[j] == g;
                assert(after[j] == g);
            }
        }
        lemma_record_counts_one_attempt(m, before, after.drop_last(), failed, g);
    }
}

/// A game that a round attempted without failing is no longer queued.
pub proof fn lemma_record_drops_recovered(
    m: Map<GameId, u32>,
    attempted: Seq<GameId>,
    failed: Seq<GameId>,
    g: GameId,
)
    requires
        attempted.contains(g),
        !failed.contains(g),
    ensures
        !record_attempts(m, attempted, failed).dom().contains(g),
    decreases attempted.len(),
{
    if attempted.last() != g {
        let j = choose|j: int| 0 <= j < attempted.len() && #[trigger] attempted[j] == g;
        assert(j != attempted.len() - 1);
        assert(attempted.drop_last()[j] == g);
        lemma_record_drops_recovered(m, attempted.drop_last(), failed, g);
    }
}

/// A game that keeps failing, queued from nothing, is retried for exactly
/// `MAX_CLAIM_RETRIES` rounds: the failure after those drops it.
pub proof fn lemma_retry_budget_runs_out(m: Map<GameId, u32>, failed: Seq<GameId>, g: GameId)
    requires
        !m.dom().contains(g),
        failed.contains(g),
    ensures
        ({
            let r1 = record_attempts(m, seq![g], failed);
            let r2 = record_attempts(r1, seq![g], failed);
            let r3 = record_attempts(r2, seq![g], failed);
            let r4 = record_attempts(r3, seq![g], failed);
            &&& r1.dom().contains(g) && r1[g] == 1
            &&& r2.dom().contains(g) && r2[g] == 2
            &&& r3.dom().contains(g) && r3[g] == 3
            &&& !r4.dom().contains(g)
        }),
{
    let e = Seq::<GameId>::empty();
    assert(e.push(g) + e =~= seq![g]);
    lemma_record_counts_one_attempt(m, e, e, failed, g);
    let r1 = record_attempts(m, seq![g], failed);
    lemma_record_counts_one_attempt(r1, e, e, failed, g);
    let r2 = record_attempts(r1, seq![g], failed);
    lemma_record_counts_one_attempt(r2, e, e, failed, g);
    let r3 = record_attempts(r2, seq![g], failed);
    lemma_record_counts_one_attempt(r3, e, e, failed, g);
}

/// Which of two scheduled wake-ups comes first.
#[derive(Debug, Clone, Copy, PartialEq, Eq, Structural)]
pub enum WakeKind {
    /// The configured daily claim time.
    Daily,
    /// A retry of failed claims.
    Retry,
}

/// The next wake-up: its kind, its instant and the games to claim then.
#[derive(Debug, PartialEq, Eq)]
pub struct ClaimWake {
    /// Whether this is the daily claim or a retry.
    pub kind: WakeKind,
    /// The instant to wake at, in seconds since the epoch.
    pub target: i64,
    /// The games to claim.
    pub games: Vec<GameId>,
}

/// The instant of a scheduled wake-up, if there is one.
pub open spec fn wake_target(w: Option<(i64, Vec<GameId>)>) -> Option<i64> {
    match w {
        Some((t, _)) => Some(t),
        None => None,
    }
}

/// The games of a scheduled wake-up (empty when there is none).
pub open spec fn wake_games(w: Option<(i64, Vec<GameId>)>) -> Seq<GameId> {
    match w {
        Some((_, gs)) => gs@,
        None => Seq::empty(),
    }
}

/// A retry is chosen only when it is strictly earlier than the daily claim,
/// or when there is no daily claim.
pub open spec fn retry_wins(daily: Option<(i64, Vec<GameId>)>, retry: Option<(i64, Vec<GameId>)>) -> bool {
    match (wake_target(daily), wake_target(retry)) {
        (_, None) => false,
        (None, Some(_)) => true,
        (Some(d), Some(r)) => r < d,
    }
}

/// Chooses the next wake-up between the daily claim and the retry queue:
/// whichever comes first, the daily claim on a tie.
pub fn select_wake(
    daily: Option<(i64, Vec<GameId>)>,
    retry: Option<(i64, Vec<GameId>)>,
) -> (r: Option<ClaimWake>)
    ensures
        daily is None && retry is None ==> r is None,
        retry_wins(daily, retry) ==> (r matches Some(w) && w.kind == WakeKind::Retry
            && Some(w.target) == wake_target(retry) && w.games@ == wake_games(retry)),
        daily is Some && !retry_wins(daily, retry) ==> (r matches Some(w) && w.kind == WakeKind::Daily
            && Some(w.target) == wake_target(daily) && w.games@ == wake_games(daily)),
{
    match (daily, retry) {
        (Some((dt, dg)), Some((rt, rg))) => {
            if rt < dt {
                Some(ClaimWake { kind: WakeKind::Retry, target: rt, games: rg })
            } else {
                Some(ClaimWake { kind: WakeKind::Daily, target: dt, games: dg })
            }
        },
        (Some((dt, dg)), None) => Some(ClaimWake { kind: WakeKind::Daily, target: dt, games: dg }),
        (None, Some((rt, rg))) => Some(ClaimWake { kind: WakeKind::Retry, target: rt, games: rg }),
        (None, None) => None,
    }
}

/// What the scheduler does once it woke toward a claim.
#[derive(Debug, PartialEq, Eq)]
pub enum WakeAction {
    /// Stop the scheduler.
    Stop,
    /// Re-run the startup claims for every auto-claim game.
    ClaimAll,
    /// Claim these games.
    Claim(Vec<GameId>),
}

impl RetryQueue {
    /// The step after sleeping toward `wake`: stop on cancellation, re-run
    /// the startup claims when the configuration changed, and otherwise
    /// claim the wake's games. A daily claim first forgets those games'
    /// spent retries, so each day starts with a full budget.
    pub fn after_wake(&mut self, wake: ClaimWake, reason: WakeReason) -> (a: WakeAction)
        ensures
            reason == WakeReason::Cancelled ==> a == WakeAction::Stop,
            reason == WakeReason::ConfigChanged ==> a == WakeAction::ClaimAll,
            reason == WakeReason::TimerExpired ==> (a matches WakeAction::Claim(gs) && gs@ == wake.games@),
            reason == WakeReason::TimerExpired && wake.kind == WakeKind::Daily ==> (
                final(self).counts() == old(self).counts().remove_keys(wake.games@.to_set())
                && final(self).due_at() == (if nothing_queued(final(self).counts()) {
                    None
                } else {
                    old(self).due_at()
                })),
            !(reason == WakeReason::TimerExpired && wake.kind == WakeKind::Daily) ==> (
                final(self).counts() == old(self).counts() && final(self).due_at() == old(self).due_at()),
    {
        match handle_wake_reason(&reason) {
            ControlFlow::Break(()) => WakeAction::Stop,
            ControlFlow::Continue(PostWake::Rerun) => WakeAction::ClaimAll,
            ControlFlow::Continue(PostWake::Resume) => {
                if wake.kind == WakeKind::Daily {
                    self.clear_games(wake.games.as_slice());
                }
                WakeAction::Claim(wake.games)
            },
        }
    }
}

/// The next claim instant of a game with its configured claim time.
pub open spec fn claim_instant(entry: (GameId, Option<ClaimTime>), now: int) -> int {
    next_claim_at(claim_minutes(entry.1), now)
}

/// The games, in the given order, whose next claim instant is `t`.
pub open spec fn games_claimed_at(
    entries: Seq<(GameId, Option<ClaimTime>)>,
    now: int,
    t: int,
) -> Seq<GameId> {
    entries.filter_map(
        |e: (GameId, Option<ClaimTime>)|
            if claim_instant(e, now) == t {
                Some(e.0)
            } else {
                None
            },
    )
}

/// No game of `entries` has its next claim at `t`.
proof fn lemma_none_claimed_at(entries: Seq<(GameId, Option<ClaimTime>)>, now: int, t: int)
    requires
        forall|i: int| 0 <= i < entries.len() ==> claim_instant(#[trigger] entries[i], now) > t,
    ensures
        games_claimed_at(entries, now, t) =~= Seq::<GameId>::empty(),
    decreases entries.len(),
{
    if entries.len() > 0 {
        assert(claim_instant(entries[entries.len() - 1], now) > t);
        assert forall|i: int| 0 <= i < entries.drop_last().len() implies claim_instant(
            #[trigger] entries.drop_last()[i],
            now,
        ) > t by {
            assert(entries.drop_last()[i] == entries[i]);
        }
        lemma_none_claimed_at(entries.drop_last(), now, t);
    }
}

/// The earliest next claim among the auto-claim games (as the caller found
/// them enabled), with every game due at that instant in the given order;
/// `None` when there is no game. `now` is the current instant.
pub fn calculate_next_claim(
    auto_claim_games: &[(GameId, Option<ClaimTime>)],
    now: i64,
) -> (r: Option<(i64, Vec<GameId>)>)
    requires
        i64::MIN + 3 * 86400 <= now <= i64::MAX - 3 * 86400,
    ensures
        r is None <==> auto_claim_games@.len() == 0,
        r matches Some((t, gs)) ==> {
            &&& forall|i: int| 0 <= i < auto_claim_games@.len()
                ==> t <= claim_instant(#[trigger] auto_claim_games@[i], now as int)
            &&& exists|i: int| 0 <= i < auto_claim_games@.len()
                && t == claim_instant(#[trigger] auto_claim_games@[i], now as int)
            &&& gs@ == games_claimed_at(auto_claim_games@, now as int, t as int)
        },
{
    let ghost s = auto_claim_games@;
    let mut earliest: Option<i64> = None;
    let mut games: Vec<GameId> = Vec::new();
    let mut i: usize = 0;
    while i < auto_claim_games.len()
        invariant
            0 <= i <= s.len(),
            s == auto_claim_games@,
            i64::MIN + 3 * 86400 <= now <= i64::MAX - 3 * 86400,
            earliest is None <==> i == 0,
            earliest matches Some(t) ==> {
                &&& forall|j: int| 0 <= j < i ==> t <= claim_instant(#[trigger] s[j], now as int)
                &&& exists|j: int| 0 <= j < i && t == claim_instant(#[trigger] s[j], now as int)
                &&& games@ == games_claimed_at(s.take(i as int), now as int, t as int)
            },
        decreases s.len() - i,
    {
        let (g, c) = auto_claim_games[i];
        let next = next_claim_after(c, now);
        let ghost e = s[i as int];
        assert(claim_instant(e, now as int) == next);
        proof {
            assert(s.take(i + 1).drop_last() =~= s.take(i as int));
            assert(s.take(i + 1).last() == e);
        }
        match earliest {
            None => {
                earliest = Some(next);
                games = vec![g];
                proof {
                    assert(s.take(0) =~= Seq::<(GameId, Option<ClaimTime>)>::empty());
                    assert(games_claimed_at(s.take(0), now as int, next as int) =~= Seq::<GameId>::empty());
                    assert(games@ =~= games_claimed_at(s.take(1), now as int, next as int));
                }
            },
            Some(t) => {
                if next < t {
                    earliest = Some(next);
                    games = vec![g];
                    proof {
                        assert forall|j: int| 0 <= j < s.take(i as int).len() implies claim_instant(
                            #[trigger] s.take(i as int)[j],
                            now as int,
                        ) > next by {
                            assert(s.take(i as int)[j] == s[j]);
                            assert(t <= claim_instant(s[j], now as int));
                        }
                        lemma_none_claimed_at(s.take(i as int), now as int, next as int);
                        assert(games@ =~= games_claimed_at(s.take(i + 1), now as int, next as int));
                    }
                } else if next == t {
                    games.push(g);
                    proof {
                        assert(games@ =~= games_claimed_at(s.take(i + 1), now as int, t as int));
                    }
                } else {
                    proof {
                        assert(games@ =~= games_claimed_at(s.take(i + 1), now as int, t as int));
                    }
                }
            },
        }
        i += 1;
    }
    proof {
        assert(s.take(s.len() as int) =~= s);
    }
    match earliest {
        None => None,
        Some(t) => Some((t, games)),
    }
}

/// How the claim of one game in a round went.
#[derive(Debug, Clone, Copy, PartialEq, Eq, Structural)]
pub enum ClaimAttempt {
    /// Auto-claim is disabled for the game; nothing was tried.
    Skipped,
    /// The attempt registered the reward.
    Claimed,
    /// The API reported the reward already signed before this attempt.
    AlreadyClaimed,
    /// The attempt failed; `recoverable` tells whether a retry can help.
    Failed {
        /// Whether retrying can clear the failure.
        recoverable: bool,
    },
}

/// What a claim round reports: the games it covered, those that failed
/// recoverably (to retry), and those it claimed (to announce).
#[derive(Debug, Clone)]
pub struct ClaimRound {
    /// Every game the round covered.
    pub attempted: Vec<GameId>,
    /// Games whose claim failed recoverably.
    pub failed: Vec<GameId>,
    /// Games whose reward this round registered.
    pub claimed: Vec<GameId>,
}

/// The games of a round whose attempt satisfies `p`, in order.
pub open spec fn games_where(outcomes: Seq<(GameId, ClaimAttempt)>, p: spec_fn(ClaimAttempt) -> bool) -> Seq<GameId>
    decreases outcomes.len(),
{
    if outcomes.len() == 0 {
        Seq::empty()
    } else if p(outcomes.last().1) {
        games_where(outcomes.drop_last(), p).push(outcomes.last().0)
    } else {
        games_where(outcomes.drop_last(), p)
    }
}

/// A recoverable failure.
pub open spec fn is_retryable_failure() -> spec_fn(ClaimAttempt) -> bool {
    |a: ClaimAttempt| a matches ClaimAttempt::Failed { recoverable } && recoverable
}

/// A registered claim.
pub open spec fn is_claimed() -> spec_fn(ClaimAttempt) -> bool {
    |a: ClaimAttempt| a == ClaimAttempt::Claimed
}

/// Every game of a round.
pub open spec fn covered() -> spec_fn(ClaimAttempt) -> bool {
    |a: ClaimAttempt| true
}

/// Summarizes a claim round from each game's outcome, in order.
pub fn summarize_round(outcomes: &Vec<(GameId, ClaimAttempt)>) -> (r: ClaimRound)
    ensures
        r.attempted@ == games_where(outcomes@, covered()),
        r.failed@ == games_where(outcomes@, is_retryable_failure()),
        r.claimed@ == games_where(outcomes@, is_claimed()),
{
    let mut attempted: Vec<GameId> = Vec::new();
    let mut failed: Vec<GameId> = Vec::new();
    let mut claimed: Vec<GameId> = Vec::new();
    let mut i: usize = 0;
    assert(outcomes@.take(0) =~= Seq::<(GameId, ClaimAttempt)>::empty());
    while i < outcomes.len()
        invariant
            0 <= i <= outcomes@.len(),
            attempted@ == games_where(outcomes@.take(i as int), covered()),
            failed@ == games_where(outcomes@.take(i as int), is_retryable_failure()),
            claimed@ == games_where(outcomes@.take(i as int), is_claimed()),
        decreases outcomes@.len() - i,
    {
        let (g, a) = outcomes[i];
        proof {
            assert(outcomes@.take(i + 1).drop_last() =~= outcomes@.take(i as int));
            assert(outcomes@.take(i + 1).last() == outcomes@[i as int]);
        }
        attempted.push(g);
        match a {
            ClaimAttempt::Failed { recoverable } => {
                if recoverable {
                    failed.push(g);
                }
            },
            ClaimAttempt::Claimed => {
                claimed.push(g);
            },
            _ => {},
        }
        i += 1;
    }
    assert(outcomes@.take(outcomes@.len() as int) =~= outcomes@);
    ClaimRound { attempted, failed, claimed }
}

/// The outcome of a claim from the status before it and the claim's
/// registration check: nothing to do when the status was already signed;
/// otherwise claimed when the response registered, failed (retry-worthy per
/// `recoverable`) when it did not.
pub fn claim_attempt_outcome(already_signed: bool, registered: Result<(), bool>) -> (a: ClaimAttempt)
    ensures
        already_signed ==> a == ClaimAttempt::AlreadyClaimed,
        !already_signed ==> a == match registered {
            Ok(()) => ClaimAttempt::Claimed,
            Err(recoverable) => ClaimAttempt::Failed { recoverable },
        },
{
    if already_signed {
        ClaimAttempt::AlreadyClaimed
    } else {
        match registered {
            Ok(()) => ClaimAttempt::Claimed,
            Err(recoverable) => ClaimAttempt::Failed { recoverable },
        }
    }
}

} // verus!
