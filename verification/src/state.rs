//! Checkpoint cursor state fed by the checkpoint stream.

use vstd::prelude::*;
use crate::indexer::Checkpoint;

verus! {

/// One checkpoint advance delivered to subscribers.
#[derive(Debug, Clone)]
pub struct CheckpointUpdate {
    /// The stream cursor of the update.
    pub cursor: u64,
    /// The checkpoint carried with it, when the stream included one.
    pub checkpoint: Option<Checkpoint>,
}

/// The reconciliation cursor: the last checkpoint cursor observed.
#[derive(Debug, Clone, PartialEq, Eq, Structural)]
pub struct CheckpointState {
    pub last_cursor: Option<u64>,
}

impl CheckpointState {
    /// No checkpoint observed yet.
    pub fn new() -> (r: CheckpointState)
        ensures
            r.last_cursor is None,
    {
        CheckpointState { last_cursor: None }
    }

    /// Record a newly observed cursor.
    pub fn advance(&mut self, cursor: u64)
        ensures
            final(self).last_cursor == Some(cursor),
    {
        self.last_cursor = Some(cursor);
    }

    /// The last observed cursor.
    pub fn last_cursor(&self) -> (r: Option<u64>)
        ensures
            r == self.last_cursor,
    {
        self.last_cursor
    }
}

} // verus!
