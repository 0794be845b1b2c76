//! Per-channel circuit breaker.
//!
//! Every failure of a channel is counted; once the count reaches the
//! threshold the breaker opens and the channel is refused until the reset
//! time has passed since its last failure, after which every request is
//! let through again (half-open). A success closes the breaker and clears the count.
//!
//! Time is a count of nanoseconds since the manager was created, read from
//! its [`Clock`]: `record_failure` stamps a failure with a reading it records
//! as the clock's newest, and `is_available` reads the clock at that reading
//! or later.

use vstd::prelude::*;
use crate::clock::Clock;

verus! {

/// Failures in a row after which a breaker opens.
pub const FAILURE_THRESHOLD: u32 = 5;

/// Time an open breaker refuses requests after the last failure (300 s).
pub const RESET_NANOS: u128 = 300_000_000_000;

/// What the breaker knows about one channel.
#[derive(Clone, Copy, Debug, PartialEq, Eq)]
pub struct BreakerState {
    pub failures: u32,
    pub last_failure: Option<u128>,
    pub open: bool,
}

/// The breaker of one channel.
struct ChannelBreaker {
    channel_id: String,
    state: BreakerState,
}

/// Breaker states of all channels that ever failed, by channel id.
pub type Breakers = Map<Seq<char>, BreakerState>;

/// The state a channel has before its first failure.
pub open spec fn closed_state() -> BreakerState {
    BreakerState { failures: 0, last_failure: None, open: false }
}

/// The state of `id`, or the closed state for a channel never seen.
pub open spec fn state_of(m: Breakers, id: Seq<char>) -> BreakerState {
    if m.contains_key(id) {
        m[id]
    } else {
        closed_state()
    }
}

/// Whether a request to `id` is let through at time `now`: the breaker is
/// closed, or it is open and more than `reset` has passed since the last
/// failure.
pub open spec fn available_at(m: Breakers, id: Seq<char>, now: u128, reset: u128) -> bool {
    let s = state_of(m, id);
    !s.open || (s.last_failure matches Some(t) && now - t > reset)
}

/// The breakers after a failure of `id` at time `now`.
pub open spec fn after_failure(m: Breakers, id: Seq<char>, now: u128, threshold: u32) -> Breakers {
    let s = state_of(m, id);
    let failures = s.failures + 1;
    m.insert(
        id,
        BreakerState {
            failures: failures as u32,
            last_failure: Some(now),
            open: s.open || failures >= threshold,
        },
    )
}

/// The breakers after a success of `id`: a known channel is closed and its
/// count cleared; an unknown one stays unknown.
pub open spec fn after_success(m: Breakers, id: Seq<char>) -> Breakers {
    if m.contains_key(id) {
        m.insert(id, closed_state())
    } else {
        m
    }
}

/// The breakers after failures of `id` at each of `times` in turn.
pub open spec fn after_failures(m: Breakers, id: Seq<char>, times: Seq<u128>, threshold: u32) -> Breakers
    decreases times.len(),
{
    if times.len() == 0 {
        m
    } else {
        after_failure(after_failures(m, id, times.drop_last(), threshold), id, times.last(), threshold)
    }
}

spec fn has_key(s: Seq<ChannelBreaker>, k: Seq<char>) -> bool {
    exists|i: int| 0 <= i < s.len() && s[i].channel_id@ == k
}

spec fn index_of_key(s: Seq<ChannelBreaker>, k: Seq<char>) -> int {
    choose|i: int| 0 <= i < s.len() && s[i].channel_id@ == k
}

spec fn keys_unique(s: Seq<ChannelBreaker>) -> bool {
    forall|i: int, j: int|
        0 <= i < s.len() && 0 <= j < s.len() && i != j ==> s[i].channel_id@ != s[j].channel_id@
}

spec fn states_map(s: Seq<ChannelBreaker>) -> Breakers {
    Map::new(|k: Seq<char>| has_key(s, k), |k: Seq<char>| s[index_of_key(s, k)].state)
}

proof fn lemma_index_of_key(s: Seq<ChannelBreaker>, i: int)
    requires
        keys_unique(s),
        0 <= i < s.len(),
    ensures
        has_key(s, s[i].channel_id@),
        index_of_key(s, s[i].channel_id@) == i,
        states_map(s).contains_key(s[i].channel_id@),
        states_map(s)[s[i].channel_id@] == s[i].state,
{
    let k = s[i].channel_id@;
    assert(has_key(s, k));
    let j = index_of_key(s, k);
    assert(s[j].channel_id@ == k);
}

proof fn lemma_update(s: Seq<ChannelBreaker>, i: int, e: ChannelBreaker)
    requires
        keys_unique(s),
        0 <= i < s.len(),
        e.channel_id@ == s[i].channel_id@,
    ensures
        keys_unique(s.update(i, e)),
        states_map(s.update(i, e)) =~= states_map(s).insert(e.channel_id@, e.state),
{
    let t = s.update(i, e);
    assert forall|a: int, b: int|
        0 <= a < t.len() && 0 <= b < t.len() && a != b implies t[a].channel_id@ != t[b].channel_id@ by {
        if a != i && b != i {
            assert(t[a] == s[a] && t[b] == s[b]);
        } else if a == i {
            assert(t[b] == s[b]);
        } else {
            assert(t[a] == s[a]);
        }
    }
    lemma_index_of_key(t, i);
    assert forall|k: Seq<char>| k != e.channel_id@ implies (has_key(t, k) == has_key(s, k)) && (
    has_key(s, k) ==> t[index_of_key(t, k)].state == s[index_of_key(s, k)].state) by {
        if has_key(s, k) {
            let j = index_of_key(s, k);
            assert(j != i);
            assert(t[j] == s[j]);
            lemma_index_of_key(t, j);
        }
        if has_key(t, k) {
            let j = index_of_key(t, k);
            assert(j != i);
            assert(t[j] == s[j]);
        }
    }
}

proof fn lemma_push(s: Seq<ChannelBreaker>, e: ChannelBreaker)
    requires
        keys_unique(s),
        !has_key(s, e.channel_id@),
    ensures
        keys_unique(s.push(e)),
        states_map(s.push(e)) =~= states_map(s).insert(e.channel_id@, e.state),
{
    let t = s.push(e);
    assert forall|a: int, b: int|
        0 <= a < t.len() && 0 <= b < t.len() && a != b implies t[a].channel_id@ != t[b].channel_id@ by {
        if a < s.len() && b < s.len() {
            assert(t[a] == s[a] && t[b] == s[b]);
        } else if a < s.len() {
            assert(t[a] == s[a]);
        } else {
            assert(t[b] == s[b]);
        }
    }
    lemma_index_of_key(t, s.len() as int);
    assert forall|k: Seq<char>| k != e.channel_id@ implies (has_key(t, k) == has_key(s, k)) && (
    has_key(s, k) ==> t[index_of_key(t, k)].state == s[index_of_key(s, k)].state) by {
        if has_key(s, k) {
            let j = index_of_key(s, k);
            assert(t[j] == s[j]);
            lemma_index_of_key(t, j);
        }
        if has_key(t, k) {
            let j = index_of_key(t, k);
            assert(j != s.len());
            assert(t[j] == s[j]);
        }
    }
}

/// A channel that never failed is let through at any time.
pub proof fn lemma_unknown_channel_available(m: Breakers, id: Seq<char>, now: u128, reset: u128)
    requires
        !m.contains_key(id),
    ensures
        available_at(m, id, now, reset),
{
}

/// After a success a channel is let through at any time and its count is zero.
pub proof fn lemma_success_closes(m: Breakers, id: Seq<char>, now: u128, reset: u128)
    ensures
        available_at(after_success(m, id), id, now, reset),
        state_of(after_success(m, id), id).failures == 0,
        !state_of(after_success(m, id), id).open,
{
}

/// A failure adds one to the channel's count and records its time; the
/// breaker opens once the count reaches the threshold and stays open.
pub proof fn lemma_failure_counted(m: Breakers, id: Seq<char>, now: u128, threshold: u32)
    requires
        state_of(m, id).failures < u32::MAX,
    ensures
        state_of(after_failure(m, id, now, threshold), id).failures == state_of(m, id).failures + 1,
        state_of(after_failure(m, id, now, threshold), id).last_failure == Some(now),
        state_of(after_failure(m, id, now, threshold), id).open == (state_of(m, id).open
            || state_of(m, id).failures + 1 >= threshold),
{
}

/// A failure that leaves the breaker open refuses the channel from the time
/// of the failure until the reset time has passed.
pub proof fn lemma_open_refuses_until_reset(
    m: Breakers,
    id: Seq<char>,
    failed_at: u128,
    threshold: u32,
    reset: u128,
    now: u128,
)
    requires
        state_of(m, id).failures < u32::MAX,
        state_of(m, id).open || state_of(m, id).failures + 1 >= threshold,
        now - failed_at <= reset,
    ensures
        !available_at(after_failure(m, id, failed_at, threshold), id, now, reset),
{
}

/// Once more than the reset time has passed since the last failure, an open
/// breaker lets requests through (half-open): every check from then on is
/// answered yes until the next failure or success changes the state.
pub proof fn lemma_half_open_after_reset(
    m: Breakers,
    id: Seq<char>,
    failed_at: u128,
    threshold: u32,
    reset: u128,
    now: u128,
)
    requires
        now - failed_at > reset,
    ensures
        available_at(after_failure(m, id, failed_at, threshold), id, now, reset),
{
}

/// A failure that leaves a closed breaker below the threshold keeps the
/// channel available.
pub proof fn lemma_below_threshold_available(
    m: Breakers,
    id: Seq<char>,
    failed_at: u128,
    threshold: u32,
    reset: u128,
    now: u128,
)
    requires
        !state_of(m, id).open,
        state_of(m, id).failures + 1 < threshold,
    ensures
        available_at(after_failure(m, id, failed_at, threshold), id, now, reset),
{
}

/// Failures and successes of one channel leave every other channel as it was.
pub proof fn lemma_other_channels_unchanged(
    m: Breakers,
    id: Seq<char>,
    other: Seq<char>,
    now: u128,
    threshold: u32,
)
    requires
        id != other,
    ensures
        state_of(after_failure(m, id, now, threshold), other) == state_of(m, other),
        state_of(after_success(m, id), other) == state_of(m, other),
{
}

/// Starting from a closed breaker with no failures (a new channel, or one
/// that just succeeded), `n` failures in a row give a count of `n`, and the
/// breaker is open exactly when `n` reaches the threshold.
pub proof fn lemma_consecutive_failures(m: Breakers, id: Seq<char>, times: Seq<u128>, threshold: u32)
    requires
        state_of(m, id) == closed_state(),
        times.len() < u32::MAX,
        threshold > 0,
    ensures
        state_of(after_failures(m, id, times, threshold), id).failures == times.len(),
        state_of(after_failures(m, id, times, threshold), id).open == (times.len() >= threshold),
        times.len() > 0 ==> state_of(after_failures(m, id, times, threshold), id).last_failure
            == Some(times.last()),
    decreases times.len(),
{
    if times.len() > 0 {
        lemma_consecutive_failures(m, id, times.drop_last(), threshold);
    }
}

/// Breakers of all channels, with the thresholds of the gateway.
pub struct CircuitBreakerManager {
    states: Vec<ChannelBreaker>,
    default_threshold: u32,
    default_reset_duration: u128,
    clock: Clock,
}

impl View for CircuitBreakerManager {
    type V = Breakers;

    /// The breaker state of every channel that has failed at least once.
    closed spec fn view(&self) -> Breakers {
        states_map(self.states@)
    }
}

impl CircuitBreakerManager {
    /// Failures in a row after which a breaker opens.
    pub closed spec fn threshold(&self) -> u32 {
        self.default_threshold
    }

    /// Nanoseconds an open breaker waits after the last failure.
    pub closed spec fn reset_nanos(&self) -> u128 {
        self.default_reset_duration
    }

    /// The newest clock reading the manager has recorded (0 before any):
    /// the time of its latest `record_failure`.
    pub closed spec fn clock_latest(&self) -> u128 {
        self.clock.latest()
    }

    /// Channel ids are unique, the thresholds are the gateway's and the
    /// clock's readings never decrease.
    pub closed spec fn wf(&self) -> bool {
        &&& self.clock.wf()
        &&& keys_unique(self.states@)
        &&& self.default_threshold == FAILURE_THRESHOLD
        &&& self.default_reset_duration == RESET_NANOS
    }

    /// A well-formed manager opens a breaker after five failures in a row
    /// and lets a request through again 300 seconds after the last one.
    pub proof fn lemma_wf_limits(&self)
        requires
            self.wf(),
        ensures
            self.threshold() == FAILURE_THRESHOLD,
            self.reset_nanos() == RESET_NANOS,
            FAILURE_THRESHOLD == 5,
            RESET_NANOS == 300 * 1_000_000_000,
    {
    }

    /// A failure that `record_failure` records is stamped with the clock
    /// reading it took, which is the manager's newest, and a later check
    /// reads the clock at that reading or after it. So when the failure
    /// leaves the breaker open, a check that reads the clock at most
    /// RESET_NANOS after the failure refuses the channel, and one that reads
    /// it later lets the channel through.
    pub proof fn lemma_failure_stamped_now(before: &Self, after: &Self, channel_id: Seq<char>, now: u128)
        requires
            before.wf(),
            after.wf(),
            after@ == after_failure(before@, channel_id, after.clock_latest(), before.threshold()),
            state_of(after@, channel_id).open,
            now >= after.clock_latest(),
        ensures
            state_of(after@, channel_id).last_failure == Some(after.clock_latest()),
            available_at(after@, channel_id, now, after.reset_nanos()) <==> now - after.clock_latest()
                > RESET_NANOS,
    {
    }

    /// A manager that knows no channel.
    pub fn new() -> (r: Self)
        ensures
            r.wf(),
            r@ == Map::<Seq<char>, BreakerState>::empty(),
            r.threshold() == FAILURE_THRESHOLD,
            r.reset_nanos() == RESET_NANOS,
            r.clock_latest() == 0,
    {
        let r = CircuitBreakerManager {
            states: Vec::new(),
            default_threshold: FAILURE_THRESHOLD,
            default_reset_duration: RESET_NANOS,
            clock: Clock::start(),
        };
        assert(r@ =~= Map::<Seq<char>, BreakerState>::empty());
        r
    }

    fn find(&self, key: &String) -> (r: Option<usize>)
        requires
            self.wf(),
        ensures
            match r {
                Some(i) => i < self.states@.len() && self.states@[i as int].channel_id@ == key@,
                None => !has_key(self.states@, key@),
            },
    {
        let mut i: usize = 0;
        while i < self.states.len()
            invariant
                i <= self.states@.len(),
                forall|j: int| 0 <= j < i ==> self.states@[j].channel_id@ != key@,
            decreases self.states@.len() - i,
        {
            if self.states[i].channel_id == *key {
                return Some(i);
            }
            i = i + 1;
        }
        None
    }

    /// The state of `channel_id`, the closed state if it never failed.
    fn current(&self, key: &String) -> (r: BreakerState)
        requires
            self.wf(),
        ensures
            r == state_of(self@, key@),
    {
        match self.find(key) {
            Some(i) => {
                proof {
                    lemma_index_of_key(self.states@, i as int);
                }
                self.states[i].state
            },
            None => {
                assert(!self@.contains_key(key@));
                BreakerState { failures: 0, last_failure: None, open: false }
            },
        }
    }

    /// How many failures in a row `channel_id` has had.
    pub fn failure_count(&self, channel_id: &str) -> (r: u32)
        requires
            self.wf(),
        ensures
            r == state_of(self@, channel_id@).failures,
    {
        let key = String::from_str(channel_id);
        self.current(&key).failures
    }

    /// Whether a request to `channel_id` is let through at time `now`.
    pub fn is_available_at(&self, channel_id: &str, now: u128) -> (r: bool)
        requires
            self.wf(),
        ensures
            r == available_at(self@, channel_id@, now, self.reset_nanos()),
    {
        let key = String::from_str(channel_id);
        let s = self.current(&key);
        if s.open {
            if let Some(last) = s.last_failure {
                if now >= last && now - last > self.default_reset_duration {
                    return true;
                }
            }
            return false;
        }
        true
    }

    /// Whether a request to `channel_id` is let through now.
    pub fn is_available(&self, channel_id: &str) -> (r: bool)
        requires
            self.wf(),
        ensures
            exists|now: u128| r == available_at(self@, channel_id@, now, self.reset_nanos()),
            !state_of(self@, channel_id@).open ==> r,
            exists|now: u128|
                now >= self.clock_latest() && r == #[trigger] available_at(
                    self@,
                    channel_id@,
                    now,
                    self.reset_nanos(),
                ),
            state_of(self@, channel_id@).last_failure matches Some(t) && self.clock_latest() - t
                > self.reset_nanos() ==> r,
    {
        let now = self.clock.peek();
        self.is_available_at(channel_id, now)
    }

    /// Closes the breaker of `channel_id` and clears its count, if the
    /// channel is known.
    pub fn record_success(&mut self, channel_id: &str)
        requires
            old(self).wf(),
        ensures
            final(self).wf(),
            final(self)@ == after_success(old(self)@, channel_id@),
            final(self).threshold() == old(self).threshold(),
            final(self).reset_nanos() == old(self).reset_nanos(),
            final(self).clock_latest() == old(self).clock_latest(),
    {
        let key = String::from_str(channel_id);
        match self.find(&key) {
            Some(i) => {
                let e = ChannelBreaker {
                    channel_id: key,
                    state: BreakerState { failures: 0, last_failure: None, open: false },
                };
                proof {
                    lemma_index_of_key(self.states@, i as int);
                    lemma_update(self.states@, i as int, e);
                }
                self.states.set(i, e);
            },
            None => {},
        }
    }

    /// Counts a failure of `channel_id` at time `now`; the breaker opens
    /// when the count reaches the threshold.
    pub fn record_failure_at(&mut self, channel_id: &str, now: u128)
        requires
            old(self).wf(),
            state_of(old(self)@, channel_id@).failures < u32::MAX,
        ensures
            final(self).wf(),
            final(self)@ == after_failure(old(self)@, channel_id@, now, old(self).threshold()),
            final(self).threshold() == old(self).threshold(),
            final(self).reset_nanos() == old(self).reset_nanos(),
            final(self).clock_latest() == old(self).clock_latest(),
    {
        let key = String::from_str(channel_id);
        let s = self.current(&key);
        let failures = s.failures + 1;
        let e = ChannelBreaker {
            channel_id: key,
            state: BreakerState {
                failures,
                last_failure: Some(now),
                open: s.open || failures >= self.default_threshold,
            },
        };
        match self.find(&e.channel_id) {
            Some(i) => {
                proof {
                    lemma_update(self.states@, i as int, e);
                }
                self.states.set(i, e);
            },
            None => {
                proof {
                    lemma_push(self.states@, e);
                }
                self.states.push(e);
            },
        }
    }

    /// Counts a failure of `channel_id` now.
    pub fn record_failure(&mut self, channel_id: &str)
        requires
            old(self).wf(),
            state_of(old(self)@, channel_id@).failures < u32::MAX,
        ensures
            final(self).wf(),
            exists|now: u128|
                final(self)@ == after_failure(old(self)@, channel_id@, now, old(self).threshold()),
            final(self)@ == after_failure(old(self)@, channel_id@, final(self).clock_latest(), old(self).threshold()),
            old(self).clock_latest() <= final(self).clock_latest(),
            final(self).threshold() == old(self).threshold(),
            final(self).reset_nanos() == old(self).reset_nanos(),
    {
        let now = self.clock.read();
        self.record_failure_at(channel_id, now);
        assert(self@ == after_failure(old(self)@, channel_id@, now, old(self).threshold()));
    }
}

} // verus!
