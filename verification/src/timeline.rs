use vstd::prelude::*;

verus! {

/// The frames of a match kept for replaying and rewinding. Frame 0 is the state the match
/// starts in; each step of the game makes the next frame. `history[i]` is the snapshot of
/// frame `deleted_history_frames + i`; the oldest frames are dropped once more than
/// `max_history_frames` are kept.
pub struct Timeline<S> {
    pub history: Vec<S>,
    pub current_frame: usize,
    pub saved_frame: usize,
    pub deleted_history_frames: usize,
    pub max_history_frames: Option<usize>,
}

impl<S> Timeline<S> {
    /// No more frames were dropped than have been played.
    pub open spec fn wf(&self) -> bool {
        self.deleted_history_frames <= self.current_frame
    }

    /// The index in the history of the current frame.
    pub open spec fn index(&self) -> int {
        self.current_frame - self.deleted_history_frames
    }

    /// A snapshot of `frame` is kept.
    pub open spec fn holds(&self, frame: int) -> bool {
        self.deleted_history_frames <= frame < self.deleted_history_frames + self.history@.len()
    }

    /// The kept snapshot of `frame`.
    pub open spec fn snapshot(&self, frame: int) -> S {
        self.history@[frame - self.deleted_history_frames]
    }

    /// The history after recording `snapshot` and moving to the next frame, before the
    /// oldest snapshots beyond the limit are dropped.
    pub open spec fn kept_history(&self, snapshot: S) -> Seq<S> {
        let pushed = self.history@.push(snapshot);
        if pushed.len() <= self.index() + 1 {
            pushed
        } else {
            pushed.subrange(0, self.index() + 1)
        }
    }

    /// How many of the oldest snapshots a local step drops to stay within the limit.
    pub open spec fn dropped_by_step(&self, snapshot: S) -> nat {
        let kept = self.kept_history(snapshot);
        match self.max_history_frames {
            Some(m) => if kept.len() > m {
                (kept.len() - m) as nat
            } else {
                0
            },
            None => 0,
        }
    }

    /// The history after a local step that recorded `snapshot`.
    pub open spec fn stepped_history(&self, snapshot: S) -> Seq<S> {
        let kept = self.kept_history(snapshot);
        kept.subrange(self.dropped_by_step(snapshot) as int, kept.len() as int)
    }

    /// A match that resumes from `history`, on `current_frame`, with `deleted_history_frames`
    /// frames already dropped from the front of the history.
    pub fn new(
        history: Vec<S>,
        current_frame: usize,
        deleted_history_frames: usize,
        max_history_frames: Option<usize>,
    ) -> (r: Timeline<S>)
        ensures
            r.history@ == history@,
            r.current_frame == current_frame,
            r.saved_frame == 0,
            r.deleted_history_frames == deleted_history_frames,
            r.max_history_frames == max_history_frames,
    {
        Timeline { history, current_frame, saved_frame: 0, deleted_history_frames, max_history_frames }
    }

    /// The index in the history of the current frame.
    pub fn current_history_index(&self) -> (r: usize)
        requires
            self.wf(),
        ensures
            r == self.index(),
    {
        self.current_frame - self.deleted_history_frames
    }

    /// Records `snapshot`, the state of the current frame, and moves on to the next frame,
    /// which the caller then computes. Frames after the current one are forgotten: the
    /// recorded history is rewritten from here. When a kept frame of the history already
    /// stands for the current frame, it is kept and `snapshot` is dropped. Beyond
    /// `max_history_frames` snapshots, the oldest are dropped.
    pub fn record_local_step(&mut self, snapshot: S)
        requires
            old(self).wf(),
            old(self).current_frame < usize::MAX,
        ensures
            final(self).wf(),
            final(self).current_frame == old(self).current_frame + 1,
            final(self).saved_frame == old(self).saved_frame,
            final(self).max_history_frames == old(self).max_history_frames,
            final(self).deleted_history_frames == old(self).deleted_history_frames
                + old(self).dropped_by_step(snapshot),
            final(self).history@ == old(self).stepped_history(snapshot),
    {
        self.history.push(snapshot);
        self.current_frame = self.current_frame + 1;
        let index = self.current_frame - self.deleted_history_frames;
        if index < self.history.len() {
            self.history.truncate(index);
        }
        match self.max_history_frames {
            Some(max) => {
                let len = self.history.len();
                let extra: usize = if len > max {
                    len - max
                } else {
                    0
                };
                self.deleted_history_frames = self.deleted_history_frames + extra;
                let rest = self.history.split_off(extra);
                self.history = rest;
            },
            None => {},
        }
    }

    /// Goes to `to_frame` when a snapshot of it is kept, and says whether it did; the caller
    /// then restores that snapshot. A frame older than the oldest kept one is not held.
    pub fn jump_frame(&mut self, to_frame: usize) -> (r: bool)
        ensures
            r == old(self).holds(to_frame as int),
            r ==> final(self).current_frame == to_frame,
            !r ==> final(self).current_frame == old(self).current_frame,
            final(self).history@ == old(self).history@,
            final(self).saved_frame == old(self).saved_frame,
            final(self).deleted_history_frames == old(self).deleted_history_frames,
            final(self).max_history_frames == old(self).max_history_frames,
    {
        if to_frame >= self.deleted_history_frames && to_frame - self.deleted_history_frames
            < self.history.len() {
            self.current_frame = to_frame;
            true
        } else {
            false
        }
    }

    /// The kept snapshot of `frame`, if there is one.
    pub fn snapshot_at(&self, frame: usize) -> (r: Option<&S>)
        ensures
            match r {
                Some(s) => self.holds(frame as int) && *s == self.snapshot(frame as int),
                None => !self.holds(frame as int),
            },
    {
        if frame >= self.deleted_history_frames && frame - self.deleted_history_frames
            < self.history.len() {
            Some(&self.history[frame - self.deleted_history_frames])
        } else {
            None
        }
    }

    /// Remembers the current frame to come back to later.
    pub fn save_frame(&mut self)
        ensures
            final(self).saved_frame == old(self).current_frame,
            final(self).current_frame == old(self).current_frame,
            final(self).history@ == old(self).history@,
            final(self).deleted_history_frames == old(self).deleted_history_frames,
            final(self).max_history_frames == old(self).max_history_frames,
    {
        self.saved_frame = self.current_frame;
    }

    /// Starts a netplay step that rolls back: the frame count moves on by one, and the last
    /// `frames_to_step` frames, up to the new current frame, are computed again from the
    /// snapshot before the first of them. Their old snapshots are dropped. Returns the
    /// first and the end of the frames to compute, and the index of the snapshot to restore
    /// first, if the first frame to compute is not frame 0. Netplay keeps every frame, so
    /// the index of a frame is the frame itself.
    pub fn begin_rollback(&mut self, frames_to_step: usize) -> (r: (usize, usize, Option<usize>))
        requires
            old(self).current_frame < usize::MAX,
            frames_to_step <= old(self).current_frame + 1,
            frames_to_step <= old(self).current_frame ==> old(self).current_frame - frames_to_step
                < old(self).history@.len(),
        ensures
            final(self).current_frame == old(self).current_frame + 1,
            r.1 == final(self).current_frame,
            r.0 == r.1 - frames_to_step,
            final(self).history@ == old(self).history@.subrange(0, r.0 as int),
            r.0 == 0 ==> r.2 is None,
            r.0 > 0 ==> r.2 == Some((r.0 - 1) as usize) && r.0 - 1 < final(self).history@.len(),
            final(self).saved_frame == old(self).saved_frame,
            final(self).deleted_history_frames == old(self).deleted_history_frames,
            final(self).max_history_frames == old(self).max_history_frames,
    {
        self.current_frame = self.current_frame + 1;
        let start = self.current_frame - frames_to_step;
        let end = self.current_frame;
        self.history.truncate(start);
        if start != 0 {
            (start, end, Some(start - 1))
        } else {
            (start, end, None)
        }
    }

    /// Records the snapshot of a frame computed during a netplay step.
    pub fn push_snapshot(&mut self, snapshot: S)
        ensures
            final(self).history@ == old(self).history@.push(snapshot),
            final(self).current_frame == old(self).current_frame,
            final(self).saved_frame == old(self).saved_frame,
            final(self).deleted_history_frames == old(self).deleted_history_frames,
            final(self).max_history_frames == old(self).max_history_frames,
    {
        self.history.push(snapshot);
    }
}

/// A local step records the frame it leaves: when nothing after the current frame was kept
/// and at least one snapshot may be kept, the snapshot recorded by the step is what is then
/// kept for the frame the step left, so jumping back to that frame restores it.
pub proof fn lemma_local_step_reads_back<S>(t: Timeline<S>, snapshot: S)
    requires
        t.wf(),
        t.history@.len() == t.index(),
        t.max_history_frames matches Some(m) ==> m >= 1,
    ensures
        ({
            let d = t.deleted_history_frames + t.dropped_by_step(snapshot);
            let h = t.stepped_history(snapshot);
            &&& d <= t.current_frame < d + h.len()
            &&& h[t.current_frame - d] == snapshot
        }),
{
    let kept = t.kept_history(snapshot);
    assert(kept =~= t.history@.push(snapshot));
}

/// After a local step no frame from the new current frame on is kept: the future
/// is always recomputed, never replayed from an older branch.
pub proof fn lemma_local_step_forgets_future<S>(t: Timeline<S>, snapshot: S)
    requires
        t.wf(),
    ensures
        t.deleted_history_frames + t.dropped_by_step(snapshot) + t.stepped_history(snapshot).len()
            <= t.current_frame + 1,
{
}

/// With a limit on the history, a local step never keeps more snapshots than the limit.
pub proof fn lemma_local_step_bounded<S>(t: Timeline<S>, snapshot: S)
    requires
        t.wf(),
        t.max_history_frames is Some,
    ensures
        t.stepped_history(snapshot).len() <= t.max_history_frames->0,
{
}

/// A local step leaves the snapshots of the frames before the current one as they were,
/// as long as they are still kept.
pub proof fn lemma_local_step_keeps_past<S>(t: Timeline<S>, snapshot: S, frame: int)
    requires
        t.wf(),
        t.holds(frame),
        frame < t.current_frame,
        frame >= t.deleted_history_frames + t.dropped_by_step(snapshot),
    ensures
        ({
            let d = t.deleted_history_frames + t.dropped_by_step(snapshot);
            let h = t.stepped_history(snapshot);
            &&& frame < d + h.len()
            &&& h[frame - d] == t.snapshot(frame)
        }),
{
}

} // verus!
