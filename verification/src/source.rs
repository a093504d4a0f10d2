//! The two kinds of snapshot, and when each counts as settled.

use crate::record::records;
use crate::record::EventEntry;
use crate::record::ResourceEntry;
use crate::record::ResourceState;
use crate::record::StatusRecord;
use vstd::prelude::*;

verus! {

/// Which snapshot of a stack is fetched on each tick.
#[derive(Clone, Copy, Debug, PartialEq, Eq, Structural)]
pub enum Source {
    /// The stack's timeline of events, oldest first.
    Events,
    /// The current state of each of the stack's resources.
    Resources,
}

/// The kind of a failed fetch, named after the source that made it.
#[derive(Clone, Copy, Debug, PartialEq, Eq, Structural)]
pub enum Error {
    Events,
    Resources,
}

/// Every record of the batch is terminal.
pub open spec fn all_terminal(batch: Seq<StatusRecord>) -> bool {
    forall|i: int| 0 <= i < batch.len() ==> (#[trigger] batch[i]).is_terminal()
}

/// The batch has a last record, which describes the stack and is terminal.
pub open spec fn ends_on_terminal_stack(batch: Seq<StatusRecord>) -> bool {
    batch.len() > 0 && batch.last().is_stack() && batch.last().is_terminal()
}

/// The records that a newest-first timeline stands for, oldest first.
pub open spec fn event_records(entries: Seq<EventEntry>) -> Seq<StatusRecord> {
    entries.map_values(|e: EventEntry| e.record()).reverse()
}

/// The records that a snapshot stands for, in the snapshot's order.
pub open spec fn resource_records(entries: Seq<ResourceEntry>) -> Seq<StatusRecord> {
    entries.map_values(|e: ResourceEntry| e.record())
}

/// Every timestamp of the timeline can be read.
pub open spec fn events_well_timed(entries: Seq<EventEntry>) -> bool {
    forall|i: int| 0 <= i < entries.len() ==> (#[trigger] entries[i]).well_timed()
}

/// Every timestamp of the snapshot can be read.
pub open spec fn resources_well_timed(entries: Seq<ResourceEntry>) -> bool {
    forall|i: int| 0 <= i < entries.len() ==> (#[trigger] entries[i]).well_timed()
}

impl Source {
    /// The resource snapshot where `resources` is set, the event timeline otherwise.
    pub fn select(resources: bool) -> (source: Source)
        ensures
            source == if resources { Source::Resources } else { Source::Events },
    {
        if resources {
            Source::Resources
        } else {
            Source::Events
        }
    }

    /// The stack has stopped changing, as far as this kind of batch can tell.
    pub open spec fn settled(self, batch: Seq<StatusRecord>) -> bool {
        match self {
            Source::Events => ends_on_terminal_stack(batch),
            Source::Resources => all_terminal(batch),
        }
    }

    /// No other batch is due: none was asked for, or the stack has settled.
    pub open spec fn done(self, batch: Seq<StatusRecord>, follow: bool) -> bool {
        !follow || self.settled(batch)
    }

    /// Whether polling ends with this batch.
    pub fn is_done(&self, batch: &Vec<ResourceState>, follow: bool) -> (done: bool)
        ensures
            done == self.done(records(batch@), follow),
    {
        if !follow {
            return true;
        }
        match self {
            Source::Events => {
                let n = batch.len();
                if n == 0 {
                    false
                } else {
                    let last = &batch[n - 1];
                    assert(records(batch@).last() == last@);
                    last.is_stack() && last.complete_or_failed()
                }
            },
            Source::Resources => {
                let n = batch.len();
                let mut i: usize = 0;
                while i < n
                    invariant
                        follow,
                        *self == Source::Resources,
                        n == batch.len(),
                        i <= n,
                        forall|j: int| 0 <= j < i ==> (#[trigger] records(batch@)[j]).is_terminal(),
                    decreases n - i,
                {
                    if !batch[i].complete_or_failed() {
                        assert(!records(batch@)[i as int].is_terminal());
                        return false;
                    }
                    i += 1;
                }
                true
            },
        }
    }

    /// The error that a failed fetch from this source is reported as.
    pub fn fetch_error(&self) -> (error: Error)
        ensures
            error == match *self {
                Source::Events => Error::Events,
                Source::Resources => Error::Resources,
            },
    {
        match self {
            Source::Events => Error::Events,
            Source::Resources => Error::Resources,
        }
    }
}

/// Turns a timeline as the service sends it, newest first, into a batch in
/// chronological order. `None` where a timestamp cannot be read.
pub fn events_batch(entries: Vec<EventEntry>) -> (batch: Option<Vec<ResourceState>>)
    ensures
        batch is Some <==> events_well_timed(entries@),
        batch matches Some(b) ==> records(b@) == event_records(entries@),
{
    let ghost all = entries@;
    let mut rest = entries;
    let mut batch: Vec<ResourceState> = Vec::new();
    loop
        invariant
            all == entries@,
            rest@.len() <= all.len(),
            rest@ == all.subrange(0, rest@.len() as int),
            batch@.len() == all.len() - rest@.len(),
            forall|j: int| rest@.len() <= j < all.len() ==> (#[trigger] all[j]).well_timed(),
            forall|j: int|
                0 <= j < batch@.len() ==> (#[trigger] batch@[j])@ == all[all.len() - 1 - j].record(),
        decreases rest@.len(),
    {
        match rest.pop() {
            None => {
                assert(records(batch@) =~= event_records(all));
                return Some(batch);
            },
            Some(entry) => {
                assert(entry == all[rest@.len() as int]);
                match ResourceState::try_from_event(entry) {
                    None => {
                        return None;
                    },
                    Some(state) => {
                        batch.push(state);
                    },
                }
            },
        }
    }
}

/// Turns a snapshot as the service sends it into a batch in the same order.
/// `None` where a timestamp cannot be read.
pub fn resources_batch(entries: Vec<ResourceEntry>) -> (batch: Option<Vec<ResourceState>>)
    ensures
        batch is Some <==> resources_well_timed(entries@),
        batch matches Some(b) ==> records(b@) == resource_records(entries@),
{
    let ghost all = entries@;
    let mut batch: Vec<ResourceState> = Vec::new();
    for entry in iter: entries
        invariant
            all == entries@,
            iter.seq() == all,
            batch@.len() == iter.index(),
            forall|j: int| 0 <= j < batch@.len() ==> (#[trigger] all[j]).well_timed(),
            forall|j: int| 0 <= j < batch@.len() ==> (#[trigger] batch@[j])@ == all[j].record(),
    {
        match ResourceState::try_from_resource(entry) {
            None => {
                return None;
            },
            Some(state) => {
                batch.push(state);
            },
        }
    }
    assert(records(batch@) =~= resource_records(all));
    Some(batch)
}

} // verus!
