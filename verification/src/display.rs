//! What a tick puts on the screen: the lines to take away and the text to write.
//!
//! The columns of the rows are lined up by the `tabwriter` crate, writing into
//! memory. What it makes of a text is named here by a spec function without a
//! body.

use crate::format::is_row;
use crate::format::render;
use crate::format::zone_name;
use crate::record::ResourceState;
use crate::timestamp::Zone;
use std::io::Write;
use tabwriter::TabWriter;
use vstd::prelude::*;
use vstd::string::StringExecFns;

verus! {

/// The text that ends each row.
pub const NEWLINE: &'static str = "\n";

/// What a `tabwriter::TabWriter` with its default settings writes out once
/// `text` has been written to it and it is flushed.
pub uninterp spec fn tab_aligned(text: Seq<char>) -> Seq<char>;

/// The rows one after another, each ended by a newline.
pub open spec fn lines(rows: Seq<String>) -> Seq<char>
    decreases rows.len(),
{
    if rows.len() == 0 {
        Seq::empty()
    } else {
        lines(rows.drop_last()) + rows.last()@ + NEWLINE@
    }
}

/// Writes the text to a `TabWriter` over a byte vector made with
/// `TabWriter::new`, takes the vector back with `into_inner`, which flushes,
/// and reads it as text. Trusted: the text that comes back is the one named by
/// `tab_aligned`.
#[verifier::external_body]
fn tab_align(text: &str) -> (out: String)
    ensures
        out@ == tab_aligned(text@),
{
    let mut writer = TabWriter::new(Vec::new());
    let _ = writer.write_all(text.as_bytes());
    let bytes = writer.into_inner().unwrap_or_default();
    String::from_utf8_lossy(&bytes).into_owned()
}

/// One repaint of the table.
#[derive(Debug)]
pub struct Frame {
    /// How many of the lines drawn last are erased first.
    pub erase: usize,
    /// The rows of the batch, top to bottom, before their columns are lined up.
    pub rows: Vec<String>,
    /// The text to write: the rows, each on its own line, columns lined up.
    pub text: String,
}

/// The repaint for one tick: the rows of the previous tick go, and each state
/// of the batch gets one row, in the batch's order.
pub fn frame(prev_len: usize, states: &Vec<ResourceState>, zone: &Option<Zone>) -> (frame: Frame)
    ensures
        frame.erase == prev_len,
        frame.rows@.len() == states@.len(),
        forall|i: int|
            0 <= i < states@.len() ==> is_row(
                (#[trigger] states@[i])@,
                zone_name(*zone),
                frame.rows@[i]@,
            ),
        frame.text@ == tab_aligned(lines(frame.rows@)),
{
    let n = states.len();
    let mut rows: Vec<String> = Vec::new();
    let mut joined = String::new();
    let mut i: usize = 0;
    while i < n
        invariant
            n == states@.len(),
            i <= n,
            rows@.len() == i,
            forall|j: int|
                0 <= j < i ==> is_row((#[trigger] states@[j])@, zone_name(*zone), rows@[j]@),
            joined@ == lines(rows@),
        decreases n - i,
    {
        let row = render(&states[i], zone);
        joined.append(row.as_str());
        joined.append(NEWLINE);
        proof {
            let grown = rows@.push(row);
            assert(grown.drop_last() =~= rows@);
            assert(grown.last() == row);
        }
        rows.push(row);
        i += 1;
    }
    Frame { erase: prev_len, rows, text: tab_align(joined.as_str()) }
}

} // verus!
