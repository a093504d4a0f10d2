//! The follow state: whether polling goes on, and how many rows the last tick drew.

use crate::record::records;
use crate::record::ResourceState;
use crate::record::StatusRecord;
use crate::source::Error;
use crate::source::Source;
use vstd::prelude::*;

verus! {

/// Seconds to wait between one fetch and the next.
pub const POLL_INTERVAL_SECS: u64 = 1;

/// Where the poll loop stands.
///
/// `Init(follow)` is the state before the first fetch. `Next(follow, len)` is
/// the state after a fetch that drew `len` rows; its flag says whether another
/// fetch is due.
#[derive(Clone, Copy, Debug, PartialEq, Eq, Structural)]
pub enum State {
    Init(bool),
    Next(bool, usize),
}

impl State {
    /// The follow flag carried by either shape.
    pub open spec fn spec_follow(&self) -> bool {
        match *self {
            State::Init(f) => f,
            State::Next(f, _) => f,
        }
    }

    /// `true` exactly for `Next(false, _)`: one batch was drawn and no other is due.
    pub open spec fn spec_complete(&self) -> bool {
        *self matches State::Next(false, _)
    }

    /// The number of rows drawn by the previous tick; `0` before the first.
    pub open spec fn spec_prev_len(&self) -> usize {
        match *self {
            State::Next(_, len) => len,
            State::Init(_) => 0,
        }
    }

    /// Whether another fetch is wanted.
    #[verifier::when_used_as_spec(spec_follow)]
    pub fn follow(&self) -> (f: bool)
        ensures
            f == self.spec_follow(),
    {
        match *self {
            State::Init(f) => f,
            State::Next(f, _) => f,
        }
    }

    /// Whether the run is over.
    #[verifier::when_used_as_spec(spec_complete)]
    pub fn complete(&self) -> (c: bool)
        ensures
            c == self.spec_complete(),
    {
        if let State::Next(false, _) = self {
            return true;
        }
        false
    }

    /// How many rows the previous tick drew.
    #[verifier::when_used_as_spec(spec_prev_len)]
    pub fn prev_len(&self) -> (len: usize)
        ensures
            len == self.spec_prev_len(),
    {
        match *self {
            State::Next(_, len) => len,
            _ => 0,
        }
    }
}

/// What the caller does to bring about the next tick.
#[derive(Clone, Copy, Debug, PartialEq, Eq, Structural)]
pub enum Plan {
    /// Nothing: the run is over.
    Stop,
    /// Fetch a snapshot at once.
    Fetch,
    /// Wait this many seconds, then fetch a snapshot.
    WaitThenFetch(u64),
}

/// What a step of the engine comes to.
#[derive(Debug)]
pub enum Outcome {
    /// A tick: the number of rows that the previous tick drew, the batch to
    /// draw in their place, and the state to go on from.
    Tick(usize, Vec<ResourceState>, State),
    /// The fetch failed: the run ends with this error and nothing is drawn.
    Failed(Error),
    /// The state was complete: nothing is drawn and nothing follows.
    Finished,
}

impl State {
    /// The first fetch is made at once, each later one after the poll
    /// interval, and none once the state is complete.
    pub open spec fn spec_plan(&self) -> Plan {
        match *self {
            State::Init(_) => Plan::Fetch,
            State::Next(true, _) => Plan::WaitThenFetch(POLL_INTERVAL_SECS),
            State::Next(false, _) => Plan::Stop,
        }
    }

    /// The state after a batch from `source` was drawn in this state:
    /// following goes on only if it was on and the batch does not end it.
    pub open spec fn after(&self, source: Source, batch: Seq<StatusRecord>) -> State {
        State::Next(self.follow() && !source.done(batch, self.follow()), batch.len() as usize)
    }

    /// What to do before the next tick.
    #[verifier::when_used_as_spec(spec_plan)]
    pub fn plan(&self) -> (plan: Plan)
        ensures
            plan == self.spec_plan(),
    {
        match *self {
            State::Init(_) => Plan::Fetch,
            State::Next(true, _) => Plan::WaitThenFetch(POLL_INTERVAL_SECS),
            State::Next(false, _) => Plan::Stop,
        }
    }

    /// The state after `batch` was fetched from `source` and drawn.
    pub fn advance(&self, source: Source, batch: &Vec<ResourceState>) -> (next: State)
        ensures
            next == self.after(source, records(batch@)),
    {
        let follow = self.follow() && !source.is_done(batch, self.follow());
        State::Next(follow, batch.len())
    }

    /// One step of the engine: takes what the fetch brought, `None` where it
    /// failed, and says what to draw and where to go on from.
    pub fn step(&self, source: Source, fetched: Option<Vec<ResourceState>>) -> (outcome: Outcome)
        ensures
            self.complete() ==> outcome is Finished,
            !self.complete() && fetched is None ==> outcome == Outcome::Failed(
                match source {
                    Source::Events => Error::Events,
                    Source::Resources => Error::Resources,
                },
            ),
            !self.complete() && fetched is Some ==> outcome == Outcome::Tick(
                self.prev_len(),
                fetched->0,
                self.after(source, records(fetched->0@)),
            ),
    {
        if self.complete() {
            return Outcome::Finished;
        }
        match fetched {
            None => Outcome::Failed(source.fetch_error()),
            Some(batch) => {
                let next = self.advance(source, &batch);
                Outcome::Tick(self.prev_len(), batch, next)
            },
        }
    }
}

/// Either shape of the state reports the follow flag it was made with.
pub proof fn lemma_follow_is_the_flag(follow: bool, len: usize)
    ensures
        State::Init(follow).follow() == follow,
        State::Next(follow, len).follow() == follow,
{
}

/// Before the first batch nothing was drawn; after a batch, its length was.
pub proof fn lemma_prev_len_is_the_count(follow: bool, len: usize)
    ensures
        State::Init(follow).prev_len() == 0,
        State::Next(follow, len).prev_len() == len,
{
}

/// A state that follows nothing after a batch is the end of the run: it is
/// complete and plans no fetch.
pub proof fn lemma_next_without_follow_is_terminal(len: usize)
    ensures
        State::Next(false, len).complete(),
        State::Next(false, len).plan() == Plan::Stop,
{
}

/// The complete states are exactly those from which no fetch is planned.
pub proof fn lemma_stop_iff_complete(state: State)
    ensures
        state.plan() == Plan::Stop <==> state.complete(),
        state is Init ==> state.plan() == Plan::Fetch,
{
}

/// Without follow, the state after the first batch is complete whatever the
/// batch holds: a single-shot run draws one batch and stops.
pub proof fn lemma_single_shot(source: Source, batch: Seq<StatusRecord>)
    ensures
        !State::Init(false).complete(),
        State::Init(false).after(source, batch).complete(),
{
}

/// With follow, the run goes on after a batch exactly if the batch has not
/// settled; once it has, the next state is complete.
pub proof fn lemma_follow_until_settled(state: State, source: Source, batch: Seq<StatusRecord>)
    requires
        state.follow(),
    ensures
        state.after(source, batch).complete() <==> source.settled(batch),
        state.after(source, batch).follow() <==> !source.settled(batch),
{
}

/// Each state remembers the length of the batch that led to it.
pub proof fn lemma_after_tracks_length(state: State, source: Source, batch: Seq<StatusRecord>)
    requires
        batch.len() <= usize::MAX,
    ensures
        state.after(source, batch).prev_len() == batch.len(),
{
}

/// The ticks of a run that starts in `state` and is fed the batches of `feed`
/// in turn, each as the number of rows drawn before it and the batch itself.
/// The run ends at the first complete state, or where the feed ends.
pub open spec fn emitted(state: State, source: Source, feed: Seq<Seq<StatusRecord>>) -> Seq<
    (usize, Seq<StatusRecord>),
>
    decreases feed.len(),
{
    if state.complete() || feed.len() == 0 {
        Seq::empty()
    } else {
        seq![(state.prev_len(), feed[0])] + emitted(
            state.after(source, feed[0]),
            source,
            feed.drop_first(),
        )
    }
}

/// From a complete state no tick follows, whatever could still be fetched.
pub proof fn lemma_complete_emits_nothing(
    state: State,
    source: Source,
    feed: Seq<Seq<StatusRecord>>,
)
    requires
        state.complete(),
    ensures
        emitted(state, source, feed).len() == 0,
{
}

/// A run without follow draws the first batch, with nothing to erase, and
/// ends, whether or not that batch has settled.
pub proof fn lemma_single_shot_emits_once(source: Source, feed: Seq<Seq<StatusRecord>>)
    requires
        feed.len() >= 1,
    ensures
        emitted(State::Init(false), source, feed) == seq![(0usize, feed[0])],
{
    let next = State::Init(false).after(source, feed[0]);
    assert(next.complete());
    assert(emitted(next, source, feed.drop_first()) =~= Seq::empty());
    assert(emitted(State::Init(false), source, feed) =~= seq![(0usize, feed[0])]);
}

/// A run with follow draws every batch up to and including the first one
/// that has settled, and ends there.
pub proof fn lemma_follow_emits_until_settled(
    state: State,
    source: Source,
    feed: Seq<Seq<StatusRecord>>,
    k: int,
)
    requires
        state.follow(),
        0 <= k < feed.len(),
        forall|i: int| 0 <= i < k ==> !source.settled(#[trigger] feed[i]),
        source.settled(feed[k]),
    ensures
        emitted(state, source, feed).len() == k + 1,
    decreases k,
{
    let next = state.after(source, feed[0]);
    let rest = feed.drop_first();
    if k == 0 {
        assert(next.complete());
        assert(emitted(next, source, rest).len() == 0);
    } else {
        assert(!source.settled(feed[0]));
        assert(next.follow());
        assert forall|i: int| 0 <= i < k - 1 implies !source.settled(#[trigger] rest[i]) by {
            assert(rest[i] == feed[i + 1]);
        }
        assert(rest[k - 1] == feed[k]);
        lemma_follow_emits_until_settled(next, source, rest, k - 1);
    }
}

/// The ticks of a run carry the batches of the feed in order; the first
/// reports the length the run started with, and each later one the length of
/// the batch drawn before it.
pub proof fn lemma_emitted_tracks_previous_batch(
    state: State,
    source: Source,
    feed: Seq<Seq<StatusRecord>>,
    i: int,
)
    requires
        0 <= i < emitted(state, source, feed).len(),
        forall|j: int| 0 <= j < feed.len() ==> (#[trigger] feed[j]).len() <= usize::MAX,
    ensures
        i < feed.len(),
        emitted(state, source, feed)[i].1 == feed[i],
        i == 0 ==> emitted(state, source, feed)[i].0 == state.prev_len(),
        i > 0 ==> emitted(state, source, feed)[i].0 == feed[i - 1].len(),
    decreases i,
{
    let next = state.after(source, feed[0]);
    let rest = feed.drop_first();
    if i > 0 {
        assert(emitted(state, source, feed)[i] == emitted(next, source, rest)[i - 1]);
        assert forall|j: int| 0 <= j < rest.len() implies (#[trigger] rest[j]).len()
            <= usize::MAX by {
            assert(rest[j] == feed[j + 1]);
        }
        lemma_emitted_tracks_previous_batch(next, source, rest, i - 1);
        assert(rest[i - 1] == feed[i]);
        if i > 1 {
            assert(rest[i - 2] == feed[i - 1]);
        }
    }
}

} // verus!
