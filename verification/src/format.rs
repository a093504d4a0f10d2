//! Laying a status record out as one row of a table.

use crate::paint::bold;
use crate::paint::bold_bright_green;
use crate::paint::bold_bright_green_text;
use crate::paint::bold_bright_red;
use crate::paint::bold_bright_red_text;
use crate::paint::bold_text;
use crate::paint::bright_black;
use crate::paint::bright_black_text;
use crate::record::deletion_status;
use crate::record::status_lifecycle;
use crate::record::Lifecycle;
use crate::record::ResourceState;
use crate::record::StatusRecord;
use crate::timestamp::offset_text;
use crate::timestamp::zoned_text;
use crate::timestamp::Moment;
use crate::timestamp::Zone;
use vstd::prelude::*;
use vstd::string::StringExecFns;

verus! {

/// The mark shown for a deletion that completed.
pub const COFFIN: &'static str = "⚰️ ";

/// The mark shown for any other change that completed.
pub const CHECK: &'static str = "✅";

/// The mark shown for a change that failed.
pub const CROSS: &'static str = "❌";

/// The mark shown for a change in progress.
pub const REFRESH: &'static str = "🔄";

/// The text between two cells of a row.
pub const TAB: &'static str = "\t";

/// The text between a status mark and the status.
pub const SPACE: &'static str = " ";

/// A state together with the time zone to show its timestamp in, if any.
#[derive(Debug)]
pub struct Formatted(pub ResourceState, pub Option<Zone>);

/// The name of the zone, where one is given.
pub open spec fn zone_name(zone: Option<Zone>) -> Option<Seq<char>> {
    match zone {
        Some(z) => Some(z@),
        None => None,
    }
}

/// The first cell: the moment in the named zone, or in its own offset where no zone is given.
pub open spec fn timestamp_text(moment: Moment, zone: Option<Seq<char>>) -> Seq<char> {
    match zone {
        Some(name) => zoned_text(moment.secs, moment.nanos, name),
        None => offset_text(moment.secs, moment.nanos, moment.offset),
    }
}

/// The mark that stands before a status.
pub open spec fn status_mark(status: Seq<char>) -> Seq<char> {
    match status_lifecycle(status) {
        Lifecycle::Completed => if deletion_status(status) {
            COFFIN@
        } else {
            CHECK@
        },
        Lifecycle::Failed => CROSS@,
        Lifecycle::InProgress => REFRESH@,
    }
}

/// `cell` shows a resource identifier: plain, or in bold.
pub open spec fn shows_id(id: Seq<char>, cell: Seq<char>) -> bool {
    cell == id || cell == bold_text(id)
}

/// `cell` shows a resource type or a reason: plain, or in bright black.
pub open spec fn shows_aside(text: Seq<char>, cell: Seq<char>) -> bool {
    cell == text || cell == bright_black_text(text)
}

/// `cell` shows a status: plain, or in bold bright green where it completed,
/// in bold bright red where it failed.
pub open spec fn shows_status(status: Seq<char>, cell: Seq<char>) -> bool {
    match status_lifecycle(status) {
        Lifecycle::Completed => cell == status || cell == bold_bright_green_text(status),
        Lifecycle::Failed => cell == status || cell == bold_bright_red_text(status),
        Lifecycle::InProgress => cell == status,
    }
}

/// The row made of these cells: five columns parted by tabs, the fourth being
/// the mark, a space and the status.
pub open spec fn row_text(
    timestamp: Seq<char>,
    id: Seq<char>,
    kind: Seq<char>,
    mark: Seq<char>,
    status: Seq<char>,
    reason: Seq<char>,
) -> Seq<char> {
    timestamp + TAB@ + id + TAB@ + kind + TAB@ + mark + SPACE@ + status + TAB@ + reason
}

/// The row of `record` in `zone` whose styled cells are the given ones.
pub open spec fn row_with(
    record: StatusRecord,
    zone: Option<Seq<char>>,
    id: Seq<char>,
    kind: Seq<char>,
    status: Seq<char>,
    reason: Seq<char>,
) -> Seq<char> {
    row_text(
        timestamp_text(record.timestamp, zone),
        id,
        kind,
        status_mark(record.status),
        status,
        reason,
    )
}

/// The four styled cells show what `record` holds.
pub open spec fn cells_show(
    record: StatusRecord,
    id: Seq<char>,
    kind: Seq<char>,
    status: Seq<char>,
    reason: Seq<char>,
) -> bool {
    &&& shows_id(record.resource_id, id)
    &&& shows_aside(record.resource_type, kind)
    &&& shows_status(record.status, status)
    &&& shows_aside(record.reason, reason)
}

/// `row` is a row of `record` in `zone`: its timestamp, mark and layout are
/// fixed, and each styled cell shows its text plain or styled.
pub open spec fn is_row(record: StatusRecord, zone: Option<Seq<char>>, row: Seq<char>) -> bool {
    exists|id: Seq<char>, kind: Seq<char>, status: Seq<char>, reason: Seq<char>|
        #[trigger] cells_show(record, id, kind, status, reason) && row == row_with(
            record,
            zone,
            id,
            kind,
            status,
            reason,
        )
}

/// The row of `record` in `zone` with no cell styled.
pub open spec fn plain_row(record: StatusRecord, zone: Option<Seq<char>>) -> Seq<char> {
    row_with(record, zone, record.resource_id, record.resource_type, record.status, record.reason)
}

/// The mark that stands before the state's status.
pub fn mark(state: &ResourceState) -> (mark: &'static str)
    ensures
        mark@ == status_mark(state@.status),
{
    match state.lifecycle() {
        Lifecycle::Completed => if state.is_deletion() {
            COFFIN
        } else {
            CHECK
        },
        Lifecycle::Failed => CROSS,
        Lifecycle::InProgress => REFRESH,
    }
}

/// Joins the cells of a row.
pub fn compose_row(
    timestamp: &str,
    id: &str,
    kind: &str,
    mark: &str,
    status: &str,
    reason: &str,
) -> (row: String)
    ensures
        row@ == row_text(timestamp@, id@, kind@, mark@, status@, reason@),
{
    let mut row = String::from_str(timestamp);
    row.append(TAB);
    row.append(id);
    row.append(TAB);
    row.append(kind);
    row.append(TAB);
    row.append(mark);
    row.append(SPACE);
    row.append(status);
    row.append(TAB);
    row.append(reason);
    row
}

/// The state's status with the emphasis of its class.
fn paint_status(state: &ResourceState) -> (cell: String)
    ensures
        shows_status(state@.status, cell@),
{
    match state.lifecycle() {
        Lifecycle::Completed => bold_bright_green(state.status.as_str()),
        Lifecycle::Failed => bold_bright_red(state.status.as_str()),
        Lifecycle::InProgress => state.status.clone(),
    }
}

/// The first cell of the state's row.
pub fn timestamp_cell(state: &ResourceState, zone: &Option<Zone>) -> (cell: String)
    ensures
        cell@ == timestamp_text(state@.timestamp, zone_name(*zone)),
{
    match zone {
        None => state.timestamp.to_text(),
        Some(z) => state.timestamp.to_text_in(z),
    }
}

/// Lays the state out as a row, with its timestamp in `zone` where one is given.
pub fn render(state: &ResourceState, zone: &Option<Zone>) -> (row: String)
    ensures
        is_row(state@, zone_name(*zone), row@),
{
    let timestamp = timestamp_cell(state, zone);
    let id = bold(state.resource_id.as_str());
    let kind = bright_black(state.resource_type.as_str());
    let status = paint_status(state);
    let reason = bright_black(state.reason.as_str());
    let row = compose_row(
        timestamp.as_str(),
        id.as_str(),
        kind.as_str(),
        mark(state),
        status.as_str(),
        reason.as_str(),
    );
    assert(cells_show(state@, id@, kind@, status@, reason@));
    row
}

/// In a named zone the first cell shows the instant alone: two timestamps of
/// the same instant, written in different offsets, read the same there.
pub proof fn lemma_zone_shows_instant(a: Moment, b: Moment, zone: Seq<char>)
    requires
        a.secs == b.secs,
        a.nanos == b.nanos,
    ensures
        timestamp_text(a, Some(zone)) == timestamp_text(b, Some(zone)),
{
}

/// A row is a function of the record, the zone and the four styled cells:
/// two rows of the same record in the same zone are equal wherever styling
/// came out the same for each cell.
pub proof fn lemma_same_cells_same_row(
    record: StatusRecord,
    zone: Option<Seq<char>>,
    id: Seq<char>,
    kind: Seq<char>,
    status: Seq<char>,
    reason: Seq<char>,
    first: Seq<char>,
    second: Seq<char>,
)
    requires
        cells_show(record, id, kind, status, reason),
        first == row_with(record, zone, id, kind, status, reason),
        second == row_with(record, zone, id, kind, status, reason),
    ensures
        first == second,
        is_row(record, zone, first),
{
}

/// The row with no cell styled is a row of the record.
pub proof fn lemma_plain_row_is_row(record: StatusRecord, zone: Option<Seq<char>>)
    ensures
        is_row(record, zone, plain_row(record, zone)),
{
    assert(cells_show(
        record,
        record.resource_id,
        record.resource_type,
        record.status,
        record.reason,
    ));
}

impl Formatted {
    /// The row of the state in the zone, as `render` lays it out.
    pub fn render(&self) -> (row: String)
        ensures
            is_row(self.0@, zone_name(self.1), row@),
    {
        render(&self.0, &self.1)
    }
}

} // verus!
