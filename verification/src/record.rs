//! Status records: one unit of a stack's state, and how its status is classed.

use crate::text::ends_with;
use crate::text::starts_with;
use crate::timestamp::parsed_moment;
use crate::timestamp::Moment;
use crate::timestamp::Timestamp;
use vstd::prelude::*;
use vstd::string::StringExecFns;

verus! {

/// The resource type of the record that describes the stack itself.
pub const STACK_RESOURCE: &'static str = "AWS::CloudFormation::Stack";

/// The ending of a status that reports success.
pub const COMPLETE: &'static str = "_COMPLETE";

/// The ending of a status that reports failure.
pub const FAILED: &'static str = "_FAILED";

/// The beginning of a status that reports on a deletion.
pub const DELETE: &'static str = "DELETE";

/// The class of a status, decided by its ending.
#[derive(Clone, Copy, Debug, PartialEq, Eq, Structural)]
pub enum Lifecycle {
    Completed,
    Failed,
    InProgress,
}

/// A status ends with `_COMPLETE` or with `_FAILED`.
pub open spec fn terminal_status(status: Seq<char>) -> bool {
    COMPLETE@.is_suffix_of(status) || FAILED@.is_suffix_of(status)
}

/// A status begins with `DELETE`.
pub open spec fn deletion_status(status: Seq<char>) -> bool {
    DELETE@.is_prefix_of(status)
}

/// The class of a status: completed, failed, or else in progress.
pub open spec fn status_lifecycle(status: Seq<char>) -> Lifecycle {
    if COMPLETE@.is_suffix_of(status) {
        Lifecycle::Completed
    } else if FAILED@.is_suffix_of(status) {
        Lifecycle::Failed
    } else {
        Lifecycle::InProgress
    }
}

/// A status is terminal exactly if its class is not in progress.
pub proof fn lemma_terminal_iff_not_in_progress(status: Seq<char>)
    ensures
        terminal_status(status) <==> status_lifecycle(status) != Lifecycle::InProgress,
{
}

/// No status ends both ways, so each class goes by its own ending alone:
/// completed with `_COMPLETE`, failed with `_FAILED`.
pub proof fn lemma_lifecycle_by_ending(status: Seq<char>)
    ensures
        status_lifecycle(status) == Lifecycle::Completed <==> COMPLETE@.is_suffix_of(status),
        status_lifecycle(status) == Lifecycle::Failed <==> FAILED@.is_suffix_of(status),
{
    reveal_strlit("_COMPLETE");
    reveal_strlit("_FAILED");
    if COMPLETE@.is_suffix_of(status) && FAILED@.is_suffix_of(status) {
        let n = status.len() as int;
        assert(status.subrange(n - 9, n)[8] == 'E');
        assert(status.subrange(n - 7, n)[6] == 'D');
    }
}

/// What a status record says, as mathematical values.
pub struct StatusRecord {
    pub resource_type: Seq<char>,
    pub timestamp: Moment,
    pub status: Seq<char>,
    pub resource_id: Seq<char>,
    pub reason: Seq<char>,
}

impl StatusRecord {
    /// The record's status has stopped changing.
    pub open spec fn is_terminal(self) -> bool {
        terminal_status(self.status)
    }

    /// The record describes the stack itself rather than one of its resources.
    pub open spec fn is_stack(self) -> bool {
        self.resource_type == STACK_RESOURCE@
    }

    /// The record reports on a deletion.
    pub open spec fn is_deletion(self) -> bool {
        deletion_status(self.status)
    }

    /// The class of the record's status.
    pub open spec fn lifecycle(self) -> Lifecycle {
        status_lifecycle(self.status)
    }
}

/// The state of one resource, or of the stack, at one point in time.
#[derive(Debug)]
pub struct ResourceState {
    pub resource_type: String,
    pub timestamp: Timestamp,
    pub status: String,
    pub resource_id: String,
    pub reason: String,
}

impl View for ResourceState {
    type V = StatusRecord;

    open spec fn view(&self) -> StatusRecord {
        StatusRecord {
            resource_type: self.resource_type@,
            timestamp: self.timestamp@,
            status: self.status@,
            resource_id: self.resource_id@,
            reason: self.reason@,
        }
    }
}

impl Clone for ResourceState {
    fn clone(&self) -> (copy: ResourceState)
        ensures
            copy@ == self@,
    {
        ResourceState {
            resource_type: self.resource_type.clone(),
            timestamp: self.timestamp,
            status: self.status.clone(),
            resource_id: self.resource_id.clone(),
            reason: self.reason.clone(),
        }
    }
}

/// What each state of a batch says, in the batch's order.
pub open spec fn records(batch: Seq<ResourceState>) -> Seq<StatusRecord> {
    batch.map_values(|state: ResourceState| state@)
}

/// The text of an optional field, empty where the field is absent.
pub open spec fn text_or_empty(field: Option<String>) -> Seq<char> {
    match field {
        Some(text) => text@,
        None => Seq::empty(),
    }
}

fn unwrap_or_empty(field: Option<String>) -> (text: String)
    ensures
        text@ == text_or_empty(field),
{
    match field {
        Some(text) => text,
        None => String::new(),
    }
}

/// One entry of a stack's event timeline, as the service reports it.
#[derive(Debug)]
pub struct EventEntry {
    pub resource_type: Option<String>,
    pub timestamp: String,
    pub resource_status: Option<String>,
    pub logical_resource_id: Option<String>,
    pub resource_status_reason: Option<String>,
}

/// One entry of a stack's resource snapshot, as the service reports it.
#[derive(Debug)]
pub struct ResourceEntry {
    pub resource_type: String,
    pub timestamp: String,
    pub resource_status: String,
    pub logical_resource_id: String,
    pub resource_status_reason: Option<String>,
}

impl EventEntry {
    /// The entry's timestamp can be read.
    pub open spec fn well_timed(self) -> bool {
        parsed_moment(self.timestamp@) is Some
    }

    /// The record an entry with a readable timestamp stands for: absent fields are empty.
    pub open spec fn record(self) -> StatusRecord {
        StatusRecord {
            resource_type: text_or_empty(self.resource_type),
            timestamp: parsed_moment(self.timestamp@).unwrap(),
            status: text_or_empty(self.resource_status),
            resource_id: text_or_empty(self.logical_resource_id),
            reason: text_or_empty(self.resource_status_reason),
        }
    }
}

impl ResourceEntry {
    /// The entry's timestamp can be read.
    pub open spec fn well_timed(self) -> bool {
        parsed_moment(self.timestamp@) is Some
    }

    /// The record an entry with a readable timestamp stands for: an absent reason is empty.
    pub open spec fn record(self) -> StatusRecord {
        StatusRecord {
            resource_type: self.resource_type@,
            timestamp: parsed_moment(self.timestamp@).unwrap(),
            status: self.resource_status@,
            resource_id: self.logical_resource_id@,
            reason: text_or_empty(self.resource_status_reason),
        }
    }
}

impl ResourceState {
    /// Whether the status ends with `_COMPLETE` or `_FAILED`.
    pub fn complete_or_failed(&self) -> (terminal: bool)
        ensures
            terminal == self@.is_terminal(),
    {
        ends_with(self.status.as_str(), COMPLETE) || ends_with(self.status.as_str(), FAILED)
    }

    /// Whether the record describes the stack itself.
    pub fn is_stack(&self) -> (stack: bool)
        ensures
            stack == self@.is_stack(),
    {
        self.resource_type == String::from_str(STACK_RESOURCE)
    }

    /// Whether the status begins with `DELETE`.
    pub fn is_deletion(&self) -> (deletion: bool)
        ensures
            deletion == self@.is_deletion(),
    {
        starts_with(self.status.as_str(), DELETE)
    }

    /// The class of the status; `_COMPLETE` is looked for before `_FAILED`.
    pub fn lifecycle(&self) -> (class: Lifecycle)
        ensures
            class == self@.lifecycle(),
    {
        if ends_with(self.status.as_str(), COMPLETE) {
            Lifecycle::Completed
        } else if ends_with(self.status.as_str(), FAILED) {
            Lifecycle::Failed
        } else {
            Lifecycle::InProgress
        }
    }

    /// The state that a timeline entry reports. The entry's timestamp must be readable.
    pub fn from_event(e: EventEntry) -> (state: ResourceState)
        requires
            e.well_timed(),
        ensures
            state@ == e.record(),
    {
        let timestamp = Timestamp::parse(e.timestamp.as_str());
        ResourceState {
            resource_type: unwrap_or_empty(e.resource_type),
            timestamp: timestamp.unwrap(),
            status: unwrap_or_empty(e.resource_status),
            resource_id: unwrap_or_empty(e.logical_resource_id),
            reason: unwrap_or_empty(e.resource_status_reason),
        }
    }

    /// The state that a snapshot entry reports. The entry's timestamp must be readable.
    pub fn from_resource(e: ResourceEntry) -> (state: ResourceState)
        requires
            e.well_timed(),
        ensures
            state@ == e.record(),
    {
        let timestamp = Timestamp::parse(e.timestamp.as_str());
        ResourceState {
            resource_type: e.resource_type,
            timestamp: timestamp.unwrap(),
            status: e.resource_status,
            resource_id: e.logical_resource_id,
            reason: unwrap_or_empty(e.resource_status_reason),
        }
    }

    /// The state that a timeline entry reports, or `None` where its timestamp cannot be read.
    pub fn try_from_event(e: EventEntry) -> (state: Option<ResourceState>)
        ensures
            state is Some <==> e.well_timed(),
            state matches Some(s) ==> s@ == e.record(),
    {
        if Timestamp::parse(e.timestamp.as_str()).is_some() {
            Some(ResourceState::from_event(e))
        } else {
            None
        }
    }

    /// The state that a snapshot entry reports, or `None` where its timestamp cannot be read.
    pub fn try_from_resource(e: ResourceEntry) -> (state: Option<ResourceState>)
        ensures
            state is Some <==> e.well_timed(),
            state matches Some(s) ==> s@ == e.record(),
    {
        if Timestamp::parse(e.timestamp.as_str()).is_some() {
            Some(ResourceState::from_resource(e))
        } else {
            None
        }
    }
}

} // verus!
