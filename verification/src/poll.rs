//! The long-polling update source.
//!
//! The pull delivery mode repeatedly issues the fetch-updates call with an
//! advancing cursor: one fetch in flight at a time, the cursor moved only
//! after a batch has been fully processed, a backoff delay — growing up to a
//! capped ceiling, reset to the floor by the next success — between retries
//! after transport failures. The cycle logic lives here as an explicit state
//! machine from state and event to next state and action; the embedding runs
//! the loop, performs the network work and the sleeps, and hands the
//! outcomes back.

use vstd::prelude::*;

use crate::methods::{GetUpdates, MAX_FETCH_LIMIT, MIN_FETCH_LIMIT};
use crate::update::{decode_batch, spec_decode_batch, AllowedUpdate, RawUpdate, Update};

verus! {

/// The id boundary marking which updates have been consumed: the next fetch
/// asks for updates from this offset on. Owned by one polling source, never
/// persisted.
#[derive(Clone, Copy, Debug, PartialEq, Eq, Structural)]
pub struct PollCursor {
    /// Identifier of the first update the next fetch asks for.
    pub next_offset: i64,
}

impl PollCursor {
    /// A cursor at the default starting point.
    pub fn start() -> (r: Self)
        ensures
            r.next_offset == 0,
    {
        PollCursor { next_offset: 0 }
    }

    /// A cursor at a caller-supplied starting offset.
    pub fn start_at(offset: i64) -> (r: Self)
        ensures
            r.next_offset == offset,
    {
        PollCursor { next_offset: offset }
    }
}

/// The retry delay policy of the source: the delay applied after each
/// consecutive transport failure, between a floor and a capped ceiling.
#[derive(Clone, Copy, Debug, PartialEq, Eq, Structural)]
pub struct Backoff {
    /// The delay applied right after a success, in milliseconds.
    pub floor: u64,
    /// The largest delay ever applied, in milliseconds.
    pub ceiling: u64,
    /// The delay the next retry will wait, in milliseconds.
    pub delay: u64,
}

impl Backoff {
    /// The policy is well formed when the current delay lies between a
    /// positive floor and a ceiling small enough that doubling never
    /// overflows.
    pub open spec fn wf(self) -> bool {
        &&& 1 <= self.floor
        &&& self.floor <= self.delay
        &&& self.delay <= self.ceiling
        &&& self.ceiling <= u64::MAX / 2
    }

    /// A fresh policy, starting at its floor.
    pub fn new(floor: u64, ceiling: u64) -> (r: Self)
        requires
            1 <= floor <= ceiling <= u64::MAX / 2,
        ensures
            r == (Backoff { floor, ceiling, delay: floor }),
            r.wf(),
    {
        Backoff { floor, ceiling, delay: floor }
    }
}

/// The delay that follows a given delay after one more failure: doubled,
/// capped at the ceiling.
pub open spec fn spec_bump(delay: u64, ceiling: u64) -> u64 {
    if 2 * delay <= ceiling {
        (2 * delay) as u64
    } else {
        ceiling
    }
}

/// The delay a policy applies at the nth consecutive failure after the
/// point it describes.
pub open spec fn spec_delay_after(b: Backoff, n: nat) -> u64
    decreases n,
{
    if n == 0 {
        b.delay
    } else {
        spec_bump(spec_delay_after(b, (n - 1) as nat), b.ceiling)
    }
}

/// However many failures have passed, the applied delay stays between the
/// policy's current delay and its ceiling.
pub proof fn lemma_delay_bounds(b: Backoff, n: nat)
    requires
        b.wf(),
    ensures
        b.delay <= spec_delay_after(b, n) <= b.ceiling,
    decreases n,
{
    if n > 0 {
        lemma_delay_bounds(b, (n - 1) as nat);
    }
}

/// Under consecutive transport failures the inter-attempt delays never
/// decrease: the delay at a later failure is at least the delay at an
/// earlier one, and never above the ceiling.
pub proof fn lemma_backoff_non_decreasing(b: Backoff, m: nat, n: nat)
    requires
        b.wf(),
        m <= n,
    ensures
        spec_delay_after(b, m) <= spec_delay_after(b, n),
        spec_delay_after(b, n) <= b.ceiling,
    decreases n,
{
    lemma_delay_bounds(b, n);
    if m < n {
        lemma_backoff_non_decreasing(b, m, (n - 1) as nat);
        lemma_delay_bounds(b, (n - 1) as nat);
    }
}

/// What one whole failure cycle does to the source: a transport failure
/// followed by the waited-out resume leaves it fetching again, with the
/// retry delay grown and everything else exactly as it was.
pub open spec fn spec_failure_cycle(s: PollSource) -> PollSource {
    PollSource {
        state: PollState::Requesting,
        backoff: Backoff { delay: spec_bump(s.backoff.delay, s.backoff.ceiling), ..s.backoff },
        ..s
    }
}

/// The source after a run of consecutive failure cycles.
pub open spec fn spec_after_failures(s: PollSource, n: nat) -> PollSource
    decreases n,
{
    if n == 0 {
        s
    } else {
        spec_failure_cycle(spec_after_failures(s, (n - 1) as nat))
    }
}

/// However many consecutive transport failures pass, the source keeps
/// fetching: after each cycle it is requesting again — so a run of N
/// failures issues N further attempts beyond the first — the cursor has not
/// moved, and the retry delay has grown exactly along the backoff sequence.
pub proof fn lemma_failures_keep_fetching(s: PollSource, n: nat)
    requires
        s.wf(),
        s.state is Requesting,
    ensures
        spec_after_failures(s, n).wf(),
        spec_after_failures(s, n).state is Requesting,
        spec_after_failures(s, n).cursor == s.cursor,
        spec_after_failures(s, n).pending_offset == s.pending_offset,
        spec_after_failures(s, n).backoff.delay == spec_delay_after(s.backoff, n),
        spec_after_failures(s, n).backoff.floor == s.backoff.floor,
        spec_after_failures(s, n).backoff.ceiling == s.backoff.ceiling,
    decreases n,
{
    if n > 0 {
        lemma_failures_keep_fetching(s, (n - 1) as nat);
    }
}

/// The largest update identifier in a raw batch (meaningful only for
/// non-empty batches).
pub open spec fn spec_max_raw_id(s: Seq<RawUpdate>) -> int
    decreases s.len(),
{
    if s.len() == 0 {
        0
    } else if s.len() == 1 {
        s[0].update_id as int
    } else {
        let rest = spec_max_raw_id(s.drop_last());
        if s.last().update_id >= rest {
            s.last().update_id as int
        } else {
            rest
        }
    }
}

/// In a batch whose identifiers strictly increase, the largest identifier is
/// the last one: processing such a batch leaves the cursor one past the last
/// id, and the following fetch is issued with exactly that offset.
pub proof fn lemma_max_of_increasing_batch(s: Seq<RawUpdate>)
    requires
        s.len() > 0,
        forall|i: int, j: int|
            0 <= i < j < s.len() ==> #[trigger] s[i].update_id < #[trigger] s[j].update_id,
    ensures
        spec_max_raw_id(s) == s.last().update_id,
    decreases s.len(),
{
    if s.len() > 1 {
        assert(forall|i: int, j: int|
            0 <= i < j < s.drop_last().len() ==> #[trigger] s.drop_last()[i].update_id
                < #[trigger] s.drop_last()[j].update_id);
        lemma_max_of_increasing_batch(s.drop_last());
        assert(s.drop_last().last() == s[s.len() - 2]);
        assert(s[s.len() - 2].update_id < s[s.len() - 1].update_id);
    }
}

/// Where the polling source stands between the steps of its cycle.
#[derive(Clone, Copy, Debug, PartialEq, Eq, Structural)]
pub enum PollState {
    /// Between cycles; the next step issues a fetch or observes a stop.
    Idle,
    /// A fetch is in flight; no second fetch may be issued.
    Requesting,
    /// A fetched batch is being handed to the caller's handler; the cursor
    /// moves only once this has finished.
    Processing,
    /// A transport failure was observed; the source waits out a delay, then
    /// retries the same fetch.
    BackingOff,
    /// A stop request was observed between cycles; no further fetch is
    /// issued.
    Stopped,
}

/// The long-polling source: the cycle state, the cursor, the retry policy
/// and the fixed parameters of its fetch call.
#[derive(Clone, Debug, PartialEq)]
pub struct PollSource {
    /// Where the source stands in its cycle.
    pub state: PollState,
    /// The advancing offset cursor; owned by this source alone.
    pub cursor: PollCursor,
    /// The retry delay policy.
    pub backoff: Backoff,
    /// Batch limit of every fetch call; bounded.
    pub limit: i64,
    /// Server-side long-poll wait of every fetch call, in seconds.
    pub timeout: i64,
    /// The update kinds the caller filters for, when it filters.
    pub allowed_updates: Option<Vec<AllowedUpdate>>,
    /// While a batch is being processed: the offset the cursor moves to once
    /// processing finishes.
    pub pending_offset: Option<i64>,
}

impl PollSource {
    /// A source is well formed when its retry policy and fetch parameters
    /// are, and it holds a pending offset exactly while a batch is being
    /// processed.
    pub open spec fn wf(self) -> bool {
        &&& self.backoff.wf()
        &&& MIN_FETCH_LIMIT <= self.limit <= MAX_FETCH_LIMIT
        &&& self.timeout >= 0
        &&& (self.state is Processing <==> self.pending_offset is Some)
    }

    /// Whether a fetch call is the one the source issues now: the cursor's
    /// offset and the fixed parameters, the kind filter compared by content.
    pub open spec fn spec_call_matches(self, call: GetUpdates) -> bool {
        &&& call.offset == self.cursor.next_offset
        &&& call.limit == self.limit
        &&& call.timeout == self.timeout
        &&& match self.allowed_updates {
            Some(v) => call.allowed_updates matches Some(w) && w@ == v@,
            None => call.allowed_updates is None,
        }
    }

    /// Creates an idle source: cursor at the given starting offset, retry
    /// policy at its floor.
    pub fn new(
        start_offset: i64,
        limit: i64,
        timeout: i64,
        allowed_updates: Option<Vec<AllowedUpdate>>,
        backoff_floor: u64,
        backoff_ceiling: u64,
    ) -> (r: Self)
        requires
            MIN_FETCH_LIMIT <= limit <= MAX_FETCH_LIMIT,
            timeout >= 0,
            1 <= backoff_floor <= backoff_ceiling <= u64::MAX / 2,
        ensures
            r.wf(),
            r.state is Idle,
            r.cursor.next_offset == start_offset,
            r.backoff == (Backoff {
                floor: backoff_floor,
                ceiling: backoff_ceiling,
                delay: backoff_floor,
            }),
            r.limit == limit,
            r.timeout == timeout,
            r.allowed_updates == allowed_updates,
            r.pending_offset is None,
    {
        PollSource {
            state: PollState::Idle,
            cursor: PollCursor { next_offset: start_offset },
            backoff: Backoff::new(backoff_floor, backoff_ceiling),
            limit,
            timeout,
            allowed_updates,
            pending_offset: None,
        }
    }

    /// Builds the fetch call the source issues now.
    fn fetch_call(&self) -> (r: GetUpdates)
        requires
            self.wf(),
        ensures
            self.spec_call_matches(r),
            r.wf(),
    {
        let allowed = match &self.allowed_updates {
            Some(v) => {
                let c = v.clone();
                proof {
                    assert forall|i: int| 0 <= i < v@.len() implies c@[i] == v@[i] by {
                        assert(cloned::<AllowedUpdate>(v@[i], c@[i]));
                    }
                    assert(c@ =~= v@);
                }
                Some(c)
            },
            None => None,
        };
        GetUpdates {
            offset: self.cursor.next_offset,
            limit: self.limit,
            timeout: self.timeout,
            allowed_updates: allowed,
        }
    }

    /// Observes the stop flag between cycles and either stops cleanly or
    /// opens the next cycle by issuing the fetch call with the cursor's
    /// current offset. Exactly one fetch is ever in flight: a fetch is
    /// issued only from between-cycles rest, never while one is outstanding.
    pub fn begin_cycle(&mut self, stop_requested: bool) -> (r: Option<GetUpdates>)
        requires
            old(self).wf(),
            old(self).state is Idle,
        ensures
            final(self).wf(),
            final(self).cursor == old(self).cursor,
            final(self).backoff == old(self).backoff,
            final(self).limit == old(self).limit,
            final(self).timeout == old(self).timeout,
            final(self).allowed_updates == old(self).allowed_updates,
            final(self).pending_offset is None,
            stop_requested ==> final(self).state is Stopped && r is None,
            !stop_requested ==> final(self).state is Requesting && (r matches Some(call)
                && old(self).spec_call_matches(call) && call.wf()),
    {
        if stop_requested {
            self.state = PollState::Stopped;
            None
        } else {
            let call = self.fetch_call();
            self.state = PollState::Requesting;
            Some(call)
        }
    }

    /// Takes the outcome of a successful fetch: decodes the batch — a single
    /// malformed envelope is skipped, it does not abort the batch — resets
    /// the retry delay to its floor, and notes the offset the cursor will
    /// move to once the batch has been fully processed: one past the largest
    /// id in the batch, or unchanged for an empty batch. The cursor itself
    /// does not move yet.
    pub fn on_fetch_success(&mut self, raws: Vec<RawUpdate>) -> (updates: Vec<Update>)
        requires
            old(self).wf(),
            old(self).state is Requesting,
            forall|j: int| 0 <= j < raws@.len() ==> #[trigger] raws@[j].update_id < i64::MAX,
        ensures
            final(self).wf(),
            final(self).state is Processing,
            final(self).cursor == old(self).cursor,
            final(self).backoff == (Backoff { delay: old(self).backoff.floor, ..old(self).backoff }),
            final(self).limit == old(self).limit,
            final(self).timeout == old(self).timeout,
            final(self).allowed_updates == old(self).allowed_updates,
            updates@ == spec_decode_batch(raws@),
            raws@.len() == 0 ==> final(self).pending_offset == Some(old(self).cursor.next_offset),
            raws@.len() > 0 ==> (final(self).pending_offset matches Some(v) && v
                == spec_max_raw_id(raws@) + 1),
    {
        let next = if raws.len() == 0 {
            self.cursor.next_offset
        } else {
            let mut m: i64 = raws[0].update_id;
            let mut i: usize = 1;
            proof {
                assert(raws@.take(1) =~= seq![raws@[0]]);
            }
            while i < raws.len()
                invariant
                    1 <= i <= raws@.len(),
                    raws@.len() > 0,
                    m == spec_max_raw_id(raws@.take(i as int)),
                    m < i64::MAX,
                    forall|j: int| 0 <= j < raws@.len() ==> #[trigger] raws@[j].update_id
                        < i64::MAX,
                decreases raws@.len() - i,
            {
                proof {
                    assert(raws@.take(i + 1 as int).drop_last() =~= raws@.take(i as int));
                    assert(raws@.take(i + 1 as int).last() == raws@[i as int]);
                }
                if raws[i].update_id > m {
                    m = raws[i].update_id;
                }
                i = i + 1;
            }
            proof {
                assert(raws@.take(raws@.len() as int) =~= raws@);
            }
            m + 1
        };
        let updates = decode_batch(raws);
        self.pending_offset = Some(next);
        self.backoff.delay = self.backoff.floor;
        self.state = PollState::Processing;
        updates
    }

    /// Closes a cycle once the batch has been fully processed: only now the
    /// cursor moves, to the offset noted at fetch time, and the source comes
    /// back to rest.
    pub fn finish_processing(&mut self)
        requires
            old(self).wf(),
            old(self).state is Processing,
        ensures
            final(self).wf(),
            final(self).state is Idle,
            final(self).cursor.next_offset == old(self).pending_offset->0,
            final(self).pending_offset is None,
            final(self).backoff == old(self).backoff,
            final(self).limit == old(self).limit,
            final(self).timeout == old(self).timeout,
            final(self).allowed_updates == old(self).allowed_updates,
    {
        if let Some(v) = self.pending_offset {
            self.cursor.next_offset = v;
        }
        self.pending_offset = None;
        self.state = PollState::Idle;
    }

    /// Takes a transport failure: the cursor does not move, the source backs
    /// off. Returns the delay to wait before the retry; the stored delay
    /// grows — doubled, capped at the ceiling — so that consecutive failures
    /// wait longer and longer, never less.
    pub fn on_fetch_failure(&mut self) -> (delay: u64)
        requires
            old(self).wf(),
            old(self).state is Requesting,
        ensures
            final(self).wf(),
            final(self).state is BackingOff,
            final(self).cursor == old(self).cursor,
            final(self).pending_offset == old(self).pending_offset,
            final(self).limit == old(self).limit,
            final(self).timeout == old(self).timeout,
            final(self).allowed_updates == old(self).allowed_updates,
            delay == old(self).backoff.delay,
            final(self).backoff.floor == old(self).backoff.floor,
            final(self).backoff.ceiling == old(self).backoff.ceiling,
            final(self).backoff.delay == spec_bump(
                old(self).backoff.delay,
                old(self).backoff.ceiling,
            ),
            delay <= final(self).backoff.delay,
    {
        let delay = self.backoff.delay;
        let doubled = delay * 2;
        self.backoff.delay = if doubled <= self.backoff.ceiling {
            doubled
        } else {
            self.backoff.ceiling
        };
        self.state = PollState::BackingOff;
        delay
    }

    /// Retries after the backoff delay has been waited out: the same fetch
    /// is issued again, with the cursor exactly where the failure left it.
    pub fn resume_after_backoff(&mut self) -> (r: GetUpdates)
        requires
            old(self).wf(),
            old(self).state is BackingOff,
        ensures
            final(self).wf(),
            final(self).state is Requesting,
            final(self).cursor == old(self).cursor,
            final(self).backoff == old(self).backoff,
            final(self).pending_offset == old(self).pending_offset,
            final(self).limit == old(self).limit,
            final(self).timeout == old(self).timeout,
            final(self).allowed_updates == old(self).allowed_updates,
            old(self).spec_call_matches(r),
            r.wf(),
    {
        let call = self.fetch_call();
        self.state = PollState::Requesting;
        call
    }
}

} // verus!
