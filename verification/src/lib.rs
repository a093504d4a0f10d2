//! Follow the progress of a CloudFormation stack.
//!
//! The crate holds the decisions of a polling display: how a status record is
//! classified, when a snapshot of a stack counts as settled, how the follow
//! state advances from one tick to the next, and how a record is laid out as a
//! row of text. Fetching snapshots and writing to the terminal are left to the
//! caller, which hands plain values in and takes plain values back.

pub mod display;
pub mod follow;
pub mod format;
pub mod paint;
pub mod record;
pub mod source;
pub mod text;
pub mod timestamp;
