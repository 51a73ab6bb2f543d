//! The replica's puller: keeps a cursor at the last applied WAL offset,
//! decides which pulled frames still need applying, and advances the cursor
//! only after a whole batch has been applied. The surrounding loop pulls
//! frames from the streamer, applies what [`ReplicationPuller::pending`]
//! hands back to the local engine in order, and then calls
//! [`ReplicationPuller::commit`]; a crash before `commit` simply re-runs
//! the same step.

use vstd::prelude::*;
use crate::wal::Frame;

verus! {

/// Rejection of a pulled batch that is not the gapless ascending run
/// expected right after the cursor.
#[derive(Clone, Copy, Debug, PartialEq, Eq, Structural)]
pub enum BatchError {
    OutOfOrder,
}

/// A pulled batch is acceptable when it is empty, or gapless and ascending
/// and begins no later than right after the cursor.
pub open spec fn batch_ok_spec(batch: Seq<Frame>, cursor: u64) -> bool {
    batch.len() == 0 || ((forall|i: int|
        0 <= i < batch.len() ==> (#[trigger] batch[i]).offset == batch[0].offset + i)
        && batch[0].offset <= cursor + 1)
}

/// How many frames of an acceptable batch are still unapplied: those with
/// offsets above the cursor.
pub open spec fn pending_len(batch: Seq<Frame>, cursor: u64) -> int {
    if batch.len() == 0 {
        0
    } else {
        let last = batch[batch.len() - 1].offset as int;
        if last > cursor {
            last - cursor
        } else {
            0
        }
    }
}

/// The replica-side cursor: the offset of the last frame whose apply has
/// been committed.
pub struct ReplicationPuller {
    pub cursor: u64,
}

impl ReplicationPuller {
    pub fn new(start_offset: u64) -> (p: ReplicationPuller)
        ensures
            p.cursor == start_offset,
    {
        ReplicationPuller { cursor: start_offset }
    }

    /// The offset to hand the streamer: frames strictly after the cursor
    /// are requested, so committed frames are never pulled again.
    pub fn next_request(&self) -> (r: u64)
        ensures
            r == self.cursor,
    {
        self.cursor
    }

    /// Select, from a pulled batch, the frames that still need applying:
    /// already-applied frames (offset at or below the cursor) are skipped,
    /// and what remains is exactly the gapless ascending run
    /// `cursor + 1, cursor + 2, ...`. A batch that is out of order, gapped,
    /// or starts beyond `cursor + 1` is rejected whole.
    pub fn pending(&self, batch: &Vec<Frame>) -> (r: Result<Vec<Frame>, BatchError>)
        ensures
            match r {
                Ok(v) => {
                    &&& batch_ok_spec(batch@, self.cursor)
                    &&& v@.len() == pending_len(batch@, self.cursor)
                    &&& forall|k: int|
                        0 <= k < v@.len() ==> (#[trigger] v@[k]).offset == self.cursor + 1 + k
                    &&& forall|k: int|
                        0 <= k < v@.len() ==> (#[trigger] v@[k])@ == batch@[batch@.len() - v@.len()
                            + k]@
                },
                Err(e) => e == BatchError::OutOfOrder && !batch_ok_spec(batch@, self.cursor),
            },
    {
        let len = batch.len();
        if len == 0 {
            return Ok(Vec::new());
        }
        let first = batch[0].offset;
        let mut i: usize = 1;
        while i < len
            invariant
                len == batch@.len(),
                1 <= i <= len,
                first == batch@[0].offset,
                forall|k: int| 0 <= k < i ==> (#[trigger] batch@[k]).offset == first + k,
            decreases len - i,
        {
            let prev = batch[i - 1].offset;
            if prev == u64::MAX || batch[i].offset != prev + 1 {
                proof {
                    if batch_ok_spec(batch@, self.cursor) {
                        assert(batch@[i as int].offset == batch@[0].offset + i);
                        assert(batch@[i as int - 1].offset == batch@[0].offset + i - 1);
                    }
                }
                return Err(BatchError::OutOfOrder);
            }
            i += 1;
        }
        if first > self.cursor && first - self.cursor > 1 {
            return Err(BatchError::OutOfOrder);
        }
        let skip: usize = if first <= self.cursor {
            let d = self.cursor - first;
            if d >= (len - 1) as u64 {
                return Ok(Vec::new());
            }
            (d + 1) as usize
        } else {
            0
        };
        let mut out: Vec<Frame> = Vec::new();
        let mut j: usize = skip;
        while j < len
            invariant
                len == batch@.len(),
                skip <= j <= len,
                out@.len() == j - skip,
                forall|k: int| 0 <= k < out@.len() ==> (#[trigger] out@[k])@ == batch@[skip + k]@,
            decreases len - j,
        {
            out.push(batch[j].clone());
            j += 1;
        }
        Ok(out)
    }

    /// The staleness signal: how many offsets this replica lags behind the
    /// primary's latest, 0 when caught up. A persistently growing value is
    /// how a failing puller surfaces, rather than by crashing.
    pub fn staleness(&self, latest_offset: u64) -> (r: u64)
        ensures
            latest_offset >= self.cursor ==> r == latest_offset - self.cursor,
            latest_offset < self.cursor ==> r == 0,
    {
        if latest_offset >= self.cursor {
            latest_offset - self.cursor
        } else {
            0
        }
    }

    /// Commit a fully applied batch: the cursor advances to the last
    /// applied offset, and to nothing else. Called only after every frame
    /// handed back by `pending` was applied; a partial apply is never
    /// committed.
    pub fn commit(&mut self, applied: &Vec<Frame>)
        requires
            forall|k: int|
                0 <= k < applied@.len() ==> (#[trigger] applied@[k]).offset == old(self).cursor + 1
                    + k,
        ensures
            final(self).cursor as int == old(self).cursor + applied@.len(),
    {
        if applied.len() > 0 {
            self.cursor = applied[applied.len() - 1].offset;
        }
    }
}

/// Re-running after a crash is harmless: before the commit, the whole
/// batch right after the cursor is selected again, identically; after the
/// commit, re-offering the same batch selects nothing, so committed frames
/// are never reapplied and none are skipped.
pub proof fn lemma_rerun_idempotent(batch: Seq<Frame>, cursor: u64)
    requires
        batch.len() > 0,
        forall|k: int| 0 <= k < batch.len() ==> (#[trigger] batch[k]).offset == cursor + 1 + k,
        cursor + batch.len() <= u64::MAX,
    ensures
        batch_ok_spec(batch, cursor),
        pending_len(batch, cursor) == batch.len(),
        batch_ok_spec(batch, (cursor + batch.len()) as u64),
        pending_len(batch, (cursor + batch.len()) as u64) == 0,
{
    assert(batch[0].offset == cursor + 1);
    assert(batch[batch.len() - 1].offset == cursor + batch.len());
}

} // verus!
