//! Keyframe animations: a sequence of snapshots, each shown for a given
//! time. Playback — sending a keyframe and waiting out its delay — is timed
//! work and lives with the driver; this module owns the keyframes
//! themselves.

use vstd::prelude::*;

use crate::led::Snapshot;

verus! {

/// One keyframe: what to show and for how long.
#[derive(Debug)]
pub struct AnimationFrame {
    /// The grid to display.
    pub snapshot: Snapshot,
    /// How long to hold it, in milliseconds.
    pub delay_ms: u64,
}

/// A finite sequence of keyframes, played front to back.
#[derive(Debug)]
pub struct Animation {
    /// The keyframes in playback order.
    pub seq: Vec<AnimationFrame>,
}

impl Animation {
    /// Every keyframe covers the whole grid.
    pub open spec fn wf(&self) -> bool {
        forall|i: int| 0 <= i < self.seq@.len() ==> (#[trigger] self.seq@[i]).snapshot.wf()
    }

    /// An animation with no keyframes yet.
    pub fn new() -> (r: Self)
        ensures
            r.wf(),
            r.seq@.len() == 0,
    {
        Animation { seq: Vec::new() }
    }

    /// Append one keyframe at the end.
    pub fn push_frame(&mut self, snapshot: Snapshot, delay_ms: u64)
        requires
            old(self).wf(),
            snapshot.wf(),
        ensures
            final(self).wf(),
            final(self).seq@.len() == old(self).seq@.len() + 1,
            forall|i: int|
                0 <= i < old(self).seq@.len() ==> final(self).seq@[i] == old(self).seq@[i],
            final(self).seq@.last().snapshot@ == snapshot@,
            final(self).seq@.last().delay_ms == delay_ms,
    {
        self.seq.push(AnimationFrame { snapshot, delay_ms });
    }

    /// How many keyframes the animation has.
    pub fn len(&self) -> (r: usize)
        ensures
            r == self.seq@.len(),
    {
        self.seq.len()
    }

    /// The keyframe at position `i`.
    pub fn frame_at(&self, i: usize) -> (r: &AnimationFrame)
        requires
            i < self.seq@.len(),
        ensures
            *r == self.seq@[i as int],
    {
        &self.seq[i]
    }
}

} // verus!
