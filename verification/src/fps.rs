//! Counting the frames of the last second.
//!
//! Times are whole nanoseconds since the counter was made. `update` reads
//! the clock; `record` takes the time as a number and holds all the
//! bookkeeping.

use std::time::{Duration, Instant};
use vstd::prelude::*;

verus! {

/// `std::time::Instant`, a reading of the monotonic clock. It is carried
/// through unread: nothing is claimed of what it holds.
#[verifier::external_type_specification]
#[verifier::external_body]
pub struct ExInstant(Instant);

/// `Instant::now` reads the monotonic clock. Nothing is claimed of the
/// instant that it returns.
pub assume_specification[ Instant::now ]() -> Instant
;

/// `Instant::elapsed` reads the clock and returns the time since `instant`.
/// Nothing is claimed of the duration that it returns.
pub assume_specification[ Instant::elapsed ](instant: &Instant) -> Duration
;

/// `Duration::as_nanos` returns the duration in whole nanoseconds. Nothing
/// is claimed of the number.
pub assume_specification[ Duration::as_nanos ](duration: &Duration) -> u128
;

/// The length of the window in which frames are counted: one second.
pub const WINDOW_NANOS: u128 = 1_000_000_000;

/// Whether a frame at time `t` is at most a window older than `now`: a
/// frame that is exactly one second old is still recent, an older one is
/// not. A frame that is not older at all counts as recent.
pub open spec fn is_recent(now: u128, t: u128) -> bool {
    now - t <= WINDOW_NANOS
}

/// The test that `is_recent` makes for `now`.
pub open spec fn recent_at(now: u128) -> spec_fn(u128) -> bool {
    |t: u128| is_recent(now, t)
}

/// The time from `last` to `now`, and zero where `now` is the earlier one.
pub open spec fn time_between(last: u128, now: u128) -> u128 {
    if now >= last {
        (now - last) as u128
    } else {
        0
    }
}

/// `len`, and the largest `u32` where `len` is larger.
pub open spec fn clamped_count(len: nat) -> u32 {
    if len <= u32::MAX {
        len as u32
    } else {
        u32::MAX
    }
}

/// The frames of the last second, in the order in which they came.
pub struct FpsCounter {
    origin: Instant,
    last_second_frames: Vec<u128>,
    last_frame_time: u128,
}

impl FpsCounter {
    /// The times of the frames that are counted, oldest first.
    pub closed spec fn frames(self) -> Seq<u128> {
        self.last_second_frames@
    }

    /// The time of the frame that was recorded last, and zero before the
    /// first.
    pub closed spec fn last_frame(self) -> u128 {
        self.last_frame_time
    }

    /// The frames that are counted once a frame at `now` is recorded:
    /// those that were counted and are still recent, and the new one.
    pub open spec fn frames_after(self, now: u128) -> Seq<u128> {
        self.frames().push(now).filter(recent_at(now))
    }

    /// Once a frame at `now` is recorded, it is the newest of the frames
    /// that are counted, and all of them are recent; no frame is counted
    /// that was not counted before, and none that was and is still recent
    /// is dropped.
    pub proof fn lemma_frames_after(self, now: u128)
        ensures
            self.frames_after(now).len() >= 1,
            self.frames_after(now).last() == now,
            forall|i: int|
                0 <= i < self.frames_after(now).len() ==> is_recent(
                    now,
                    #[trigger] self.frames_after(now)[i],
                ),
            self.frames_after(now).drop_last() == self.frames().filter(recent_at(now)),
            forall|i: int|
                0 <= i < self.frames().len() && is_recent(now, #[trigger] self.frames()[i])
                    ==> self.frames_after(now).contains(self.frames()[i]),
            self.frames_after(now).len() <= self.frames().len() + 1,
    {
        let kept = self.frames().filter(recent_at(now));
        self.frames().lemma_filter_push(now, recent_at(now));
        broadcast use vstd::seq_lib::group_filter_ensures;

        assert(self.frames_after(now) == kept.push(now));
        assert(kept.push(now).drop_last() =~= kept);
        assert forall|i: int|
            0 <= i < self.frames().len() && is_recent(
                now,
                #[trigger] self.frames()[i],
            ) implies self.frames_after(now).contains(self.frames()[i]) by {
            assert(recent_at(now)(self.frames()[i]));
            assert(kept.contains(self.frames()[i]));
            let j = choose|j: int| 0 <= j < kept.len() && kept[j] == self.frames()[i];
            assert(kept.push(now)[j] == self.frames()[i]);
        }
    }

    /// A counter without frames, whose time starts now.
    pub fn new() -> (counter: FpsCounter)
        ensures
            counter.frames() == Seq::<u128>::empty(),
            counter.last_frame() == 0,
    {
        Self { last_second_frames: Vec::new(), origin: Instant::now(), last_frame_time: 0 }
    }

    /// Records a frame at the present time. Returns the time since the
    /// frame before it, in nanoseconds, and the number of frames in the
    /// last second.
    pub fn update(&mut self) -> (stats: (u128, u32))
        ensures
            exists|now: u128|
                {
                    &&& final(self).last_frame() == now
                    &&& final(self).frames() == #[trigger] old(self).frames_after(now)
                    &&& stats.0 == time_between(old(self).last_frame(), now)
                    &&& stats.1 == clamped_count(final(self).frames().len())
                },
    {
        let now = self.origin.elapsed().as_nanos();
        self.record(now)
    }

    /// Records a frame at time `now`. Returns the time since the frame
    /// before it and the number of frames that are counted: those that are
    /// at most a second older than `now`, the new one among them. Frames
    /// older than that are evicted.
    pub fn record(&mut self, now: u128) -> (stats: (u128, u32))
        ensures
            final(self).last_frame() == now,
            final(self).frames() == old(self).frames_after(now),
            stats.0 == time_between(old(self).last_frame(), now),
            stats.1 == clamped_count(final(self).frames().len()),
    {
        let frame_time = if now >= self.last_frame_time {
            now - self.last_frame_time
        } else {
            0
        };
        self.last_frame_time = now;
        let ghost before = self.last_second_frames@;
        let mut kept: Vec<u128> = Vec::new();
        let mut i: usize = 0;
        while i < self.last_second_frames.len()
            invariant
                i <= before.len(),
                self.last_second_frames@ == before,
                kept@ == before.take(i as int).filter(recent_at(now)),
            decreases before.len() - i,
        {
            let t = self.last_second_frames[i];
            proof {
                assert(before.take(i + 1) =~= before.take(i as int).push(t));
                before.take(i as int).lemma_filter_push(t, recent_at(now));
            }
            if t >= now || now - t <= WINDOW_NANOS {
                kept.push(t);
            }
            i = i + 1;
        }
        kept.push(now);
        proof {
            assert(before.take(before.len() as int) =~= before);
            before.lemma_filter_push(now, recent_at(now));
        }
        self.last_second_frames = kept;
        let len = self.last_second_frames.len();
        let count: u32 = if len <= u32::MAX as usize {
            len as u32
        } else {
            u32::MAX
        };
        (frame_time, count)
    }
}

} // verus!
