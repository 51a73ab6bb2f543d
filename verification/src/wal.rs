//! The primary's write-ahead log: an append-only run of frames with
//! strictly increasing, gapless offsets, and the streamer answer that
//! serves a replica the frames after a given offset.

use vstd::prelude::*;

verus! {

/// One WAL frame: its offset in the log, the page it describes, the page
/// image, and whether it ends a commit.
#[derive(Debug, PartialEq, Eq)]
pub struct Frame {
    pub offset: u64,
    pub page_no: u32,
    pub page: Vec<u8>,
    pub commit: bool,
}

/// The mathematical value of a frame.
pub struct FrameView {
    pub offset: u64,
    pub page_no: u32,
    pub page: Seq<u8>,
    pub commit: bool,
}

impl View for Frame {
    type V = FrameView;

    open spec fn view(&self) -> FrameView {
        FrameView { offset: self.offset, page_no: self.page_no, page: self.page@, commit: self.commit }
    }
}

fn copy_bytes(v: &Vec<u8>) -> (r: Vec<u8>)
    ensures
        r@ == v@,
{
    let mut r: Vec<u8> = Vec::new();
    let mut i: usize = 0;
    while i < v.len()
        invariant
            i <= v@.len(),
            r@ == v@.take(i as int),
        decreases v@.len() - i,
    {
        r.push(v[i]);
        assert(v@.take(i + 1 as int) =~= v@.take(i as int).push(v@[i as int]));
        i += 1;
    }
    assert(v@.take(v@.len() as int) =~= v@);
    r
}

impl Clone for Frame {
    fn clone(&self) -> (r: Self)
        ensures
            r@ == self@,
    {
        Frame {
            offset: self.offset,
            page_no: self.page_no,
            page: copy_bytes(&self.page),
            commit: self.commit,
        }
    }
}

/// Answer of the streamer when a replica has fallen behind the retained
/// window: incremental replication cannot continue and an out-of-band full
/// copy is required.
#[derive(Clone, Copy, Debug, PartialEq, Eq, Structural)]
pub enum PullError {
    NeedFullResync,
}

/// The primary's WAL: the retained frames, whose offsets are exactly
/// `start, start + 1, ...` in order. Offsets below `start` have been pruned;
/// the first offset ever assigned is 1.
pub struct WalLog {
    pub frames: Vec<Frame>,
    pub start: u64,
}

impl WalLog {
    /// Retained frames carry exactly the offsets `start .. start + len`,
    /// gapless and in ascending order, and the next offset fits in a `u64`.
    pub open spec fn wf(self) -> bool {
        &&& 1 <= self.start
        &&& self.start + self.frames@.len() <= u64::MAX
        &&& forall|i: int|
            0 <= i < self.frames@.len() ==> (#[trigger] self.frames@[i]).offset == self.start + i
    }

    /// The offset the next appended frame will get.
    pub open spec fn next_offset_spec(self) -> int {
        self.start + self.frames@.len()
    }

    pub fn new() -> (l: WalLog)
        ensures
            l.wf(),
            l.start == 1,
            l.frames@.len() == 0,
    {
        WalLog { frames: Vec::new(), start: 1 }
    }

    pub fn next_offset(&self) -> (r: u64)
        requires
            self.wf(),
        ensures
            r == self.next_offset_spec(),
    {
        self.start + (self.frames.len() as u64)
    }

    /// Append one frame, assigning the next strictly increasing offset.
    pub fn append(&mut self, page_no: u32, page: Vec<u8>, commit: bool) -> (offset: u64)
        requires
            old(self).wf(),
            old(self).next_offset_spec() < u64::MAX,
        ensures
            final(self).wf(),
            offset == old(self).next_offset_spec(),
            final(self).start == old(self).start,
            final(self).frames@.len() == old(self).frames@.len() + 1,
            forall|i: int|
                0 <= i < old(self).frames@.len() ==> final(self).frames@[i]@ == old(
                    self,
                ).frames@[i]@,
            final(self).frames@.last()@ == (FrameView {
                offset,
                page_no,
                page: page@,
                commit,
            }),
    {
        let offset = self.start + (self.frames.len() as u64);
        self.frames.push(Frame { offset, page_no, page, commit });
        offset
    }

    /// The streamer's answer to "give me the frames after offset `after`":
    /// the retained frames `after + 1 .. next_offset` in ascending, gapless
    /// order — empty if none are pending — or `NeedFullResync` exactly when
    /// frame `after + 1` has already been pruned.
    pub fn frames_after(&self, after: u64) -> (r: Result<Vec<Frame>, PullError>)
        requires
            self.wf(),
        ensures
            match r {
                Ok(v) => {
                    &&& after + 1 >= self.start
                    &&& v@.len() == if self.next_offset_spec() > after + 1 {
                        self.next_offset_spec() - (after + 1)
                    } else {
                        0
                    }
                    &&& forall|k: int|
                        0 <= k < v@.len() ==> (#[trigger] v@[k])@ == self.frames@[after + 1
                            - self.start + k]@
                    &&& forall|k: int| 0 <= k < v@.len() ==> (#[trigger] v@[k]).offset == after + 1 + k
                },
                Err(e) => e == PullError::NeedFullResync && after + 1 < self.start,
            },
    {
        if after < self.start - 1 {
            return Err(PullError::NeedFullResync);
        }
        let next = self.next_offset();
        if after >= next - 1 {
            return Ok(Vec::new());
        }
        let n: usize = self.frames.len();
        let i0_u64: u64 = after + 1 - self.start;
        assert(i0_u64 < n as u64);
        let i0: usize = i0_u64 as usize;
        let mut out: Vec<Frame> = Vec::new();
        let mut i: usize = i0;
        while i < self.frames.len()
            invariant
                self.wf(),
                i0 == after + 1 - self.start,
                i0 <= i <= self.frames@.len(),
                out@.len() == i - i0,
                forall|k: int|
                    0 <= k < out@.len() ==> (#[trigger] out@[k])@ == self.frames@[i0 + k]@,
            decreases self.frames@.len() - i,
        {
            out.push(self.frames[i].clone());
            i += 1;
        }
        Ok(out)
    }

    /// Drop the frames with offsets up to and including `through` from the
    /// retained window. The remaining frames are exactly the suffix of
    /// offsets above `through`, unchanged and still gapless.
    pub fn prune_through(&mut self, through: u64)
        requires
            old(self).wf(),
        ensures
            final(self).wf(),
            final(self).start as int == if through < old(self).start {
                old(self).start as int
            } else if through + 1 > old(self).next_offset_spec() {
                old(self).next_offset_spec()
            } else {
                through + 1
            },
            final(self).frames@.len() == old(self).next_offset_spec() - final(self).start,
            forall|k: int|
                0 <= k < final(self).frames@.len() ==> (#[trigger] final(self).frames@[k])@ == old(
                    self,
                ).frames@[final(self).start - old(self).start + k]@,
    {
        while self.frames.len() > 0 && self.frames[0].offset <= through
            invariant
                self.wf(),
                old(self).start <= self.start,
                self.start <= through + 1 || self.start == old(self).start,
                self.next_offset_spec() == old(self).next_offset_spec(),
                forall|k: int|
                    0 <= k < self.frames@.len() ==> (#[trigger] self.frames@[k])@ == old(
                        self,
                    ).frames@[self.start - old(self).start + k]@,
            decreases self.frames@.len(),
        {
            self.frames.remove(0);
            self.start = self.start + 1;
        }
    }
}

} // verus!
