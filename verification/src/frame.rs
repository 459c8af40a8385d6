//! The frame-in-flight synchronization protocol.
//!
//! The render loop keeps a bounded number of frames in flight. Each frame
//! slot owns an image-available semaphore, a render-finished semaphore and a
//! fence; slots are reused cyclically, and a slot's fence must be waited
//! before any of its objects are touched again. The slot index and the
//! acquired image index are independent counters: synchronization objects are
//! indexed by the slot, command buffers and framebuffers by the image.
//!
//! [`FrameSynchronizer`] carries this state and decides every step of the
//! loop; the unverified front end performs the matching queue operations.

use vstd::arithmetic::div_mod::{lemma_add_mod_noop, lemma_mod_add_multiples_vanish, lemma_mod_self_0, lemma_small_mod};
use vstd::prelude::*;

verus! {

/// Bound on frames whose GPU work may be outstanding at once.
pub const MAX_FRAMES_IN_FLIGHT: usize = 2;

/// Number of slots whose fence has been submitted and not yet waited.
pub open spec fn in_flight_count(s: Seq<bool>) -> int
    decreases s.len(),
{
    if s.len() == 0 {
        0
    } else {
        (if s[0] {
            1int
        } else {
            0int
        }) + in_flight_count(s.skip(1))
    }
}

proof fn lemma_count_le_len(s: Seq<bool>)
    ensures
        0 <= in_flight_count(s) <= s.len(),
    decreases s.len(),
{
    if s.len() > 0 {
        lemma_count_le_len(s.skip(1));
    }
}

proof fn lemma_count_all_false(s: Seq<bool>)
    requires
        forall|j: int| 0 <= j < s.len() ==> !s[j],
    ensures
        in_flight_count(s) == 0,
    decreases s.len(),
{
    if s.len() > 0 {
        assert(forall|j: int| 0 <= j < s.skip(1).len() ==> !s.skip(1)[j]);
        lemma_count_all_false(s.skip(1));
    }
}

proof fn lemma_count_update(s: Seq<bool>, i: int, v: bool)
    requires
        0 <= i < s.len(),
    ensures
        in_flight_count(s.update(i, v)) == in_flight_count(s) - (if s[i] {
            1int
        } else {
            0int
        }) + (if v {
            1int
        } else {
            0int
        }),
    decreases s.len(),
{
    if i == 0 {
        assert(s.update(0, v).skip(1) =~= s.skip(1));
    } else {
        assert(s.update(i, v).skip(1) =~= s.skip(1).update(i - 1, v));
        lemma_count_update(s.skip(1), i - 1, v);
    }
}

/// A sequence with a false entry counts strictly below its length.
proof fn lemma_count_below_len_at_false(s: Seq<bool>, i: int)
    requires
        0 <= i < s.len(),
        !s[i],
    ensures
        in_flight_count(s) <= s.len() - 1,
    decreases s.len(),
{
    if i == 0 {
        lemma_count_le_len(s.skip(1));
    } else {
        lemma_count_below_len_at_false(s.skip(1), i - 1);
    }
}

/// The slot used by frame number `n` when `f` frames may be in flight.
pub open spec fn slot_of(n: int, f: int) -> int
    recommends
        f >= 1,
{
    n % f
}

/// The frame-slot sequence is periodic with period `f`: frame `n + f` uses
/// the same slot as frame `n`.
pub proof fn lemma_slot_periodic(n: int, f: int)
    requires
        1 <= f,
        0 <= n,
    ensures
        slot_of(n + f, f) == slot_of(n, f),
{
    lemma_mod_add_multiples_vanish(n, f);
}

/// Where the current frame stands inside one pass of the render loop.
#[derive(Clone, Copy, PartialEq, Eq, Structural, Debug)]
pub enum FramePhase {
    /// Between frames: the current slot has not been touched yet.
    Ready,
    /// The current slot's fence has been waited: its previous submission is
    /// complete, so its command buffer and semaphores are safe to reuse.
    Waited,
    /// The presentation engine handed out `image` for this frame.
    Acquired { image: usize },
}

/// State of the frame-in-flight protocol: which slot the current frame uses,
/// how far it has come, and which slots still have GPU work outstanding.
pub struct FrameSynchronizer {
    /// Bound on outstanding submissions; also the slot count.
    pub frames_in_flight: usize,
    /// Number of images in the current swapchain.
    pub image_count: usize,
    /// Slot used by the current frame.
    pub current_slot: usize,
    /// Frames begun so far.
    pub frame_counter: u64,
    /// Per slot: whether its fence is submitted and not yet waited.
    pub in_flight: Vec<bool>,
    /// Progress of the current frame.
    pub phase: FramePhase,
}

impl FrameSynchronizer {
    /// Protocol invariant: the slot index tracks the frame counter modulo the
    /// slot count, at most `frames_in_flight` submissions are outstanding,
    /// and a frame past the fence wait holds a slot with no outstanding work.
    pub open spec fn wf(self) -> bool {
        &&& 1 <= self.frames_in_flight
        &&& self.in_flight@.len() == self.frames_in_flight
        &&& self.current_slot < self.frames_in_flight
        &&& self.current_slot as int == slot_of(
            self.frame_counter as int,
            self.frames_in_flight as int,
        )
        &&& in_flight_count(self.in_flight@) <= self.frames_in_flight
        &&& match self.phase {
            FramePhase::Ready => true,
            FramePhase::Waited => !self.in_flight@[self.current_slot as int],
            FramePhase::Acquired { image } => !self.in_flight@[self.current_slot as int]
                && image < self.image_count,
        }
    }

    /// Creates the synchronizer with `frames_in_flight` slots, none of them
    /// with outstanding work (every fence is created in the signaled state).
    pub fn new(frames_in_flight: usize, image_count: usize) -> (r: Self)
        requires
            1 <= frames_in_flight,
        ensures
            r.wf(),
            r.frames_in_flight == frames_in_flight,
            r.image_count == image_count,
            r.current_slot == 0,
            r.frame_counter == 0,
            r.phase == FramePhase::Ready,
            forall|j: int| 0 <= j < frames_in_flight ==> !r.in_flight@[j],
            in_flight_count(r.in_flight@) == 0,
    {
        let mut in_flight: Vec<bool> = Vec::new();
        let mut i: usize = 0;
        while i < frames_in_flight
            invariant
                i <= frames_in_flight,
                in_flight@.len() == i,
                forall|j: int| 0 <= j < i ==> !in_flight@[j],
            decreases frames_in_flight - i,
        {
            in_flight.push(false);
            i = i + 1;
        }
        proof {
            lemma_count_all_false(in_flight@);
            lemma_small_mod(0, frames_in_flight as nat);
        }
        FrameSynchronizer {
            frames_in_flight,
            image_count,
            current_slot: 0,
            frame_counter: 0,
            in_flight,
            phase: FramePhase::Ready,
        }
    }

    /// Step 1 of the loop: block on the current slot's fence. Afterwards the
    /// slot's previous submission is complete, which is what makes its
    /// command buffer and semaphores safe to reuse. Returns the slot whose
    /// fence the front end must wait on.
    pub fn wait_current(&mut self) -> (s: usize)
        requires
            old(self).wf(),
            old(self).phase == FramePhase::Ready,
        ensures
            final(self).wf(),
            s == old(self).current_slot,
            final(self).in_flight@ =~= old(self).in_flight@.update(s as int, false),
            in_flight_count(final(self).in_flight@) <= in_flight_count(old(self).in_flight@),
            final(self).phase == FramePhase::Waited,
            final(self).frames_in_flight == old(self).frames_in_flight,
            final(self).image_count == old(self).image_count,
            final(self).current_slot == old(self).current_slot,
            final(self).frame_counter == old(self).frame_counter,
    {
        let s: usize = self.current_slot;
        proof {
            lemma_count_update(self.in_flight@, s as int, false);
        }
        self.in_flight.set(s, false);
        self.phase = FramePhase::Waited;
        s
    }

    /// Step 2: record the image index the presentation engine handed out; it
    /// will signal the current slot's image-available semaphore. The image
    /// index is independent of the slot index.
    pub fn note_acquired(&mut self, image: usize)
        requires
            old(self).wf(),
            old(self).phase == FramePhase::Waited,
            image < old(self).image_count,
        ensures
            final(self).wf(),
            final(self).phase == (FramePhase::Acquired { image }),
            final(self).in_flight@ == old(self).in_flight@,
            final(self).frames_in_flight == old(self).frames_in_flight,
            final(self).image_count == old(self).image_count,
            final(self).current_slot == old(self).current_slot,
            final(self).frame_counter == old(self).frame_counter,
    {
        self.phase = FramePhase::Acquired { image };
    }

    /// Steps 3 to 5: reset the slot's fence, submit the acquired image's
    /// command buffer (waiting on the slot's image-available semaphore at the
    /// color-attachment-output stage, signaling its render-finished semaphore
    /// and its fence), and present the image (waiting on render-finished).
    /// Marks the slot as in flight and advances to the next slot. Returns the
    /// (slot, image) pair the front end must use for the queue operations.
    pub fn submit_and_present(&mut self) -> (r: (usize, usize))
        requires
            old(self).wf(),
            old(self).phase matches FramePhase::Acquired { .. },
            old(self).frame_counter < u64::MAX,
        ensures
            final(self).wf(),
            r.0 == old(self).current_slot,
            old(self).phase == (FramePhase::Acquired { image: r.1 }),
            r.1 < old(self).image_count,
            final(self).in_flight@ =~= old(self).in_flight@.update(r.0 as int, true),
            final(self).in_flight@[r.0 as int],
            in_flight_count(final(self).in_flight@) <= in_flight_count(old(self).in_flight@) + 1,
            final(self).frame_counter == old(self).frame_counter + 1,
            final(self).current_slot as int == slot_of(
                final(self).frame_counter as int,
                final(self).frames_in_flight as int,
            ),
            final(self).phase == FramePhase::Ready,
            final(self).frames_in_flight == old(self).frames_in_flight,
            final(self).image_count == old(self).image_count,
    {
        let s: usize = self.current_slot;
        let image: usize = match self.phase {
            FramePhase::Acquired { image } => image,
            // unreachable: the contract demands an acquired image
            _ => 0,
        };
        proof {
            lemma_count_update(self.in_flight@, s as int, true);
            lemma_count_below_len_at_false(self.in_flight@, s as int);
        }
        self.in_flight.set(s, true);
        let next: usize = if s + 1 == self.frames_in_flight {
            0
        } else {
            s + 1
        };
        proof {
            let a = old(self).frame_counter as int;
            let m = old(self).frames_in_flight as int;
            lemma_add_mod_noop(a, 1, m);
            if m == 1 {
                lemma_mod_self_0(m);
                lemma_small_mod(0, 1);
            } else {
                lemma_small_mod(1, m as nat);
                if s + 1 == m {
                    lemma_mod_self_0(m);
                } else {
                    lemma_small_mod((s + 1) as nat, m as nat);
                }
            }
        }
        self.frame_counter = self.frame_counter + 1;
        self.current_slot = next;
        self.phase = FramePhase::Ready;
        (s, image)
    }

    /// A full device-idle drain: every outstanding submission completes, so
    /// every slot's fence ends up signaled and any in-progress frame is
    /// abandoned. Required before teardown and before a swapchain rebuild.
    pub fn drain(&mut self)
        requires
            old(self).wf(),
        ensures
            final(self).wf(),
            final(self).in_flight@.len() == old(self).in_flight@.len(),
            forall|j: int| 0 <= j < final(self).in_flight@.len() ==> !final(self).in_flight@[j],
            in_flight_count(final(self).in_flight@) == 0,
            final(self).phase == FramePhase::Ready,
            final(self).frames_in_flight == old(self).frames_in_flight,
            final(self).image_count == old(self).image_count,
            final(self).current_slot == old(self).current_slot,
            final(self).frame_counter == old(self).frame_counter,
    {
        let n: usize = self.in_flight.len();
        let mut i: usize = 0;
        while i < n
            invariant
                i <= n,
                self.in_flight@.len() == n,
                forall|j: int| 0 <= j < i ==> !self.in_flight@[j],
                self.frames_in_flight == old(self).frames_in_flight,
                self.image_count == old(self).image_count,
                self.current_slot == old(self).current_slot,
                self.frame_counter == old(self).frame_counter,
                self.phase == old(self).phase,
            decreases n - i,
        {
            self.in_flight.set(i, false);
            i = i + 1;
        }
        proof {
            lemma_count_all_false(self.in_flight@);
        }
        self.phase = FramePhase::Ready;
    }

    /// Swapchain rebuild after the surface changed: the swapchain-dependent
    /// resources are recreated, possibly with a new image count. The device
    /// must have been drained first; the slot and frame counters survive the
    /// rebuild untouched.
    pub fn rebuild(&mut self, new_image_count: usize)
        requires
            old(self).wf(),
            forall|j: int| 0 <= j < old(self).in_flight@.len() ==> !old(self).in_flight@[j],
        ensures
            final(self).wf(),
            final(self).image_count == new_image_count,
            final(self).phase == FramePhase::Ready,
            final(self).in_flight@ == old(self).in_flight@,
            final(self).frames_in_flight == old(self).frames_in_flight,
            final(self).current_slot == old(self).current_slot,
            final(self).frame_counter == old(self).frame_counter,
    {
        self.image_count = new_image_count;
        self.phase = FramePhase::Ready;
    }
}

/// At any instant, the number of fences in a submitted-and-not-yet-waited
/// state is at most the frames-in-flight bound.
pub proof fn lemma_in_flight_bounded(fs: FrameSynchronizer)
    requires
        fs.wf(),
    ensures
        in_flight_count(fs.in_flight@) <= fs.frames_in_flight as int,
{
}

} // verus!
