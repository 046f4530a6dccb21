//! Frame pacing.
//!
//! Every submitted frame signals the present fence with its tick. Before the
//! CPU records frame `t` it must have seen the fence reach `t - latency`, so
//! that it never runs more than `latency` frames ahead of the GPU and never
//! touches a per-frame slot that the GPU may still read.

use vstd::arithmetic::div_mod::{lemma_fundamental_div_mod, lemma_mod_bound};
use vstd::prelude::*;

verus! {

/// How long one wait on the present fence may take, in milliseconds.
pub const FENCE_TIMEOUT_MS: u32 = 50_000;

/// Bytes of one view-data slot: two 4x4 matrices and a position, padded to
/// the alignment of a constant buffer.
pub const VIEW_DATA_SIZE: u64 = 256;

/// A failure of the frame loop at run time.
#[derive(Clone, Copy, Debug, PartialEq, Eq, Structural)]
pub enum FrameError {
    /// The fence did not reach the awaited value within the bounded wait.
    DeviceTimeout,
}

/// The fence value that must be observed before frame `tick` is recorded, if
/// there is one.
pub open spec fn spec_wait_target(frame_latency: u64, tick: u64) -> Option<u64> {
    if tick >= frame_latency {
        Some((tick - frame_latency) as u64)
    } else {
        None
    }
}

/// The fence value `completed` allows frame `tick` to be recorded.
pub open spec fn spec_may_record(frame_latency: u64, tick: u64, completed: u64) -> bool {
    tick < frame_latency || completed >= tick - frame_latency
}

/// The per-frame slot that frame `tick` uses.
pub open spec fn spec_slot(frame_latency: u64, tick: u64) -> u64 {
    (tick % frame_latency) as u64
}

/// Tick counter and fence bookkeeping of the frame loop.
pub struct FrameSync {
    frame_latency: u64,
    tick: u64,
    completed: u64,
}

impl FrameSync {
    pub closed spec fn spec_frame_latency(&self) -> u64 {
        self.frame_latency
    }

    /// Number of frames submitted so far, which is the tick of the next frame.
    pub closed spec fn spec_tick(&self) -> u64 {
        self.tick
    }

    /// The highest fence value observed so far.
    pub closed spec fn spec_completed(&self) -> u64 {
        self.completed
    }

    pub open spec fn wf(&self) -> bool {
        self.spec_frame_latency() > 0
    }

    /// A frame loop that has submitted nothing. There is none for a latency
    /// of zero, which would allow no frame at all.
    pub fn new(frame_latency: u64) -> (sync: Option<Self>)
        ensures
            sync.is_some() == (frame_latency > 0),
            sync.is_some() ==> {
                &&& sync.unwrap().wf()
                &&& sync.unwrap().spec_frame_latency() == frame_latency
                &&& sync.unwrap().spec_tick() == 0
                &&& sync.unwrap().spec_completed() == 0
            },
    {
        if frame_latency == 0 {
            None
        } else {
            Some(FrameSync { frame_latency, tick: 0, completed: 0 })
        }
    }

    pub fn frame_latency(&self) -> (latency: u64)
        ensures
            latency == self.spec_frame_latency(),
    {
        self.frame_latency
    }

    pub fn tick(&self) -> (tick: u64)
        ensures
            tick == self.spec_tick(),
    {
        self.tick
    }

    pub fn completed(&self) -> (completed: u64)
        ensures
            completed == self.spec_completed(),
    {
        self.completed
    }

    /// The fence value to wait for before the next frame is recorded. The first
    /// `latency` frames wait for nothing.
    pub fn wait_target(&self) -> (target: Option<u64>)
        ensures
            target == spec_wait_target(self.spec_frame_latency(), self.spec_tick()),
    {
        if self.tick >= self.frame_latency {
            Some(self.tick - self.frame_latency)
        } else {
            None
        }
    }

    /// Begins the next frame, given the fence value seen after the bounded
    /// wait. Returns the per-frame slot to record into, or a timeout where the
    /// fence has not reached the awaited value; nothing changes then.
    pub fn begin_frame(&mut self, completed: u64) -> (slot: Result<u64, FrameError>)
        requires
            old(self).wf(),
        ensures
            final(self).wf(),
            final(self).spec_frame_latency() == old(self).spec_frame_latency(),
            final(self).spec_tick() == old(self).spec_tick(),
            match slot {
                Ok(index) => {
                    &&& spec_may_record(
                        old(self).spec_frame_latency(),
                        old(self).spec_tick(),
                        completed,
                    )
                    &&& index == spec_slot(old(self).spec_frame_latency(), old(self).spec_tick())
                    &&& index < old(self).spec_frame_latency()
                    &&& final(self).spec_completed() == if completed > old(self).spec_completed() {
                        completed
                    } else {
                        old(self).spec_completed()
                    }
                    &&& old(self).spec_tick() - final(self).spec_completed() <= old(
                        self).spec_frame_latency()
                },
                Err(error) => {
                    &&& error == FrameError::DeviceTimeout
                    &&& !spec_may_record(
                        old(self).spec_frame_latency(),
                        old(self).spec_tick(),
                        completed,
                    )
                    &&& final(self).spec_completed() == old(self).spec_completed()
                },
            },
    {
        if self.tick >= self.frame_latency && completed < self.tick - self.frame_latency {
            return Err(FrameError::DeviceTimeout);
        }
        if completed > self.completed {
            self.completed = completed;
        }
        proof {
            lemma_mod_bound(self.tick as int, self.frame_latency as int);
        }
        Ok(self.tick % self.frame_latency)
    }

    /// Ends the frame that was recorded and submitted: returns the value the
    /// queue signals the fence with, which is the frame's tick, and moves on to
    /// the next tick.
    pub fn end_frame(&mut self) -> (signal: u64)
        requires
            old(self).wf(),
            old(self).spec_tick() < u64::MAX,
        ensures
            final(self).wf(),
            signal == old(self).spec_tick(),
            final(self).spec_tick() == old(self).spec_tick() + 1,
            final(self).spec_frame_latency() == old(self).spec_frame_latency(),
            final(self).spec_completed() == old(self).spec_completed(),
    {
        let signal: u64 = self.tick;
        self.tick = self.tick + 1;
        signal
    }

    /// The fence value to wait for when the loop shuts down: the tick of the
    /// last submitted frame. Nothing is awaited where nothing was submitted.
    pub fn shutdown_target(&self) -> (target: Option<u64>)
        ensures
            target == if self.spec_tick() > 0 {
                Some((self.spec_tick() - 1) as u64)
            } else {
                None::<u64>
            },
    {
        if self.tick > 0 {
            Some(self.tick - 1)
        } else {
            None
        }
    }

    /// Whether the queue is drained, given the fence value seen after the
    /// final bounded wait.
    pub fn drained(&self, completed: u64) -> (done: Result<(), FrameError>)
        ensures
            done.is_ok() == (self.spec_tick() == 0 || completed >= self.spec_tick() - 1),
            done.is_err() ==> done == Err::<(), FrameError>(FrameError::DeviceTimeout),
    {
        if self.tick == 0 || completed >= self.tick - 1 {
            Ok(())
        } else {
            Err(FrameError::DeviceTimeout)
        }
    }
}

/// Two ticks that share a slot lie at least `frame_latency` apart.
pub proof fn lemma_same_slot_apart(frame_latency: u64, earlier: u64, tick: u64)
    requires
        frame_latency > 0,
        earlier < tick,
        spec_slot(frame_latency, earlier) == spec_slot(frame_latency, tick),
    ensures
        tick - earlier >= frame_latency,
{
    let l = frame_latency as int;
    let a = earlier as int;
    let b = tick as int;
    lemma_fundamental_div_mod(a, l);
    lemma_fundamental_div_mod(b, l);
    lemma_mod_bound(a, l);
    lemma_mod_bound(b, l);
    let qa = a / l;
    let qb = b / l;
    assert(b - a == l * (qb - qa)) by (nonlinear_arith)
        requires
            a == l * qa + a % l,
            b == l * qb + b % l,
            a % l == b % l,
    ;
    assert(qb - qa >= 1) by (nonlinear_arith)
        requires
            l * (qb - qa) > 0,
            l > 0,
    ;
    assert(l * (qb - qa) >= l) by (nonlinear_arith)
        requires
            qb - qa >= 1,
            l > 0,
    ;
}

/// When a frame may be recorded, every earlier frame that used the same slot
/// has been seen to complete: its tick is at most the observed fence value.
pub proof fn lemma_slot_retired(frame_latency: u64, earlier: u64, tick: u64, completed: u64)
    requires
        frame_latency > 0,
        earlier < tick,
        spec_slot(frame_latency, earlier) == spec_slot(frame_latency, tick),
        spec_may_record(frame_latency, tick, completed),
    ensures
        tick >= frame_latency,
        earlier <= tick - frame_latency,
        earlier <= completed,
{
    lemma_same_slot_apart(frame_latency, earlier, tick);
}

/// The ticks that are not known to be complete when a frame may be recorded
/// number at most `frame_latency`, and no two of them share a slot.
pub proof fn lemma_in_flight_slots_distinct(
    frame_latency: u64,
    tick: u64,
    completed: u64,
    first: u64,
    second: u64,
)
    requires
        frame_latency > 0,
        spec_may_record(frame_latency, tick, completed),
        completed < first < second <= tick,
    ensures
        tick - completed <= frame_latency,
        spec_slot(frame_latency, first) != spec_slot(frame_latency, second),
{
    if spec_slot(frame_latency, first) == spec_slot(frame_latency, second) {
        lemma_same_slot_apart(frame_latency, first, second);
    }
}

/// Camera data of one frame as the shaders read it: view matrix, projection
/// matrix and position, each component a single-precision bit pattern.
#[derive(Clone, Copy, Debug, PartialEq, Eq)]
pub struct ViewData {
    pub view: [u32; 16],
    pub proj: [u32; 16],
    pub position: [u32; 4],
}

/// What a ring of `slots.len()` slots holds after `data` is written for frame
/// `tick`.
pub open spec fn spec_ring_write(slots: Seq<ViewData>, tick: u64, data: ViewData) -> Seq<ViewData> {
    slots.update((tick as int) % (slots.len() as int), data)
}

/// What the ring holds after `values[i]` is written for frame `first + i`, for
/// every `i`, in order. Ticks have 64 bits: a run that would pass the last
/// tick writes nothing.
pub open spec fn spec_ring_write_all(slots: Seq<ViewData>, first: u64, values: Seq<ViewData>) -> Seq<
    ViewData,
>
    decreases values.len(),
{
    if values.len() == 0 || first + values.len() > u64::MAX + 1 {
        slots
    } else {
        spec_ring_write(
            spec_ring_write_all(slots, first, values.drop_last()),
            (first + values.len() - 1) as u64,
            values.last(),
        )
    }
}

/// The view-data constant buffer: one slot per frame in flight.
pub struct ViewDataRing {
    slots: Vec<ViewData>,
}

impl View for ViewDataRing {
    type V = Seq<ViewData>;

    closed spec fn view(&self) -> Seq<ViewData> {
        self.slots@
    }
}

impl ViewDataRing {
    pub open spec fn wf(&self) -> bool {
        &&& self@.len() > 0
        &&& self@.len() * VIEW_DATA_SIZE <= u64::MAX
    }

    /// A ring of `frame_latency` slots that all hold `initial`. There is none
    /// without a slot, nor where the buffer's size would not fit in 64 bits.
    pub fn new(frame_latency: usize, initial: ViewData) -> (ring: Option<Self>)
        ensures
            ring.is_some() == (frame_latency > 0 && frame_latency * VIEW_DATA_SIZE <= u64::MAX),
            ring.is_some() ==> {
                &&& ring.unwrap().wf()
                &&& ring.unwrap()@.len() == frame_latency
                &&& forall|i: int| 0 <= i < frame_latency ==> ring.unwrap()@[i] == initial
            },
    {
        if frame_latency == 0 || (frame_latency as u64) > u64::MAX / VIEW_DATA_SIZE {
            return None;
        }
        let mut slots: Vec<ViewData> = Vec::new();
        let mut i: usize = 0;
        while i < frame_latency
            invariant
                i <= frame_latency,
                slots@.len() == i,
                forall|j: int| 0 <= j < i ==> slots@[j] == initial,
            decreases frame_latency - i,
        {
            slots.push(initial);
            i = i + 1;
        }
        Some(ViewDataRing { slots })
    }

    /// Number of slots.
    pub fn len(&self) -> (len: usize)
        ensures
            len == self@.len(),
    {
        self.slots.len()
    }

    /// Size of the whole buffer in bytes.
    pub fn buffer_size(&self) -> (size: u64)
        requires
            self.wf(),
        ensures
            size == self@.len() * VIEW_DATA_SIZE,
    {
        self.slots.len() as u64 * VIEW_DATA_SIZE
    }

    /// Byte offset of the slot that frame `tick` uses.
    pub fn offset(&self, tick: u64) -> (offset: u64)
        requires
            self.wf(),
        ensures
            offset == ((tick as int) % (self@.len() as int)) * VIEW_DATA_SIZE,
            offset + VIEW_DATA_SIZE <= self@.len() * VIEW_DATA_SIZE,
    {
        proof {
            lemma_mod_bound(tick as int, self@.len() as int);
        }
        let slot: u64 = tick % (self.slots.len() as u64);
        slot * VIEW_DATA_SIZE
    }

    /// Stores the view data of frame `tick` in that frame's slot.
    pub fn write(&mut self, tick: u64, data: ViewData)
        requires
            old(self).wf(),
        ensures
            final(self).wf(),
            final(self)@ == spec_ring_write(old(self)@, tick, data),
    {
        proof {
            lemma_mod_bound(tick as int, self@.len() as int);
        }
        let slot: usize = (tick % (self.slots.len() as u64)) as usize;
        self.slots[slot] = data;
    }

    /// The view data in the slot that frame `tick` uses.
    pub fn read(&self, tick: u64) -> (data: ViewData)
        requires
            self.wf(),
        ensures
            data == self@[(tick as int) % (self@.len() as int)],
    {
        proof {
            lemma_mod_bound(tick as int, self@.len() as int);
        }
        let slot: usize = (tick % (self.slots.len() as u64)) as usize;
        self.slots[slot]
    }
}

/// What is written for frame `tick` is still in that frame's slot after the
/// frames behind it have written theirs, as long as fewer than `slots.len()`
/// frames followed: the slot is not reused before frame `tick + slots.len()`.
pub proof fn lemma_ring_round_trip(
    slots: Seq<ViewData>,
    tick: u64,
    data: ViewData,
    later: Seq<ViewData>,
)
    requires
        slots.len() > 0,
        later.len() < slots.len(),
        tick + later.len() <= u64::MAX,
    ensures
        spec_ring_write_all(spec_ring_write(slots, tick, data), (tick + 1) as u64, later).len()
            == slots.len(),
        spec_ring_write_all(spec_ring_write(slots, tick, data), (tick + 1) as u64, later)[(
        tick as int) % (slots.len() as int)] == data,
    decreases later.len(),
{
    let n = slots.len() as int;
    lemma_mod_bound(tick as int, n);
    if later.len() == 0 {
    } else {
        lemma_ring_round_trip(slots, tick, data, later.drop_last());
        let last_tick = (tick + later.len()) as u64;
        lemma_mod_bound(last_tick as int, n);
        if (last_tick as int) % n == (tick as int) % n {
            lemma_fundamental_div_mod(tick as int, n);
            lemma_fundamental_div_mod(last_tick as int, n);
            let qa = (tick as int) / n;
            let qb = (last_tick as int) / n;
            let d = later.len() as int;
            assert(d == n * (qb - qa)) by (nonlinear_arith)
                requires
                    tick as int == n * qa + (tick as int) % n,
                    last_tick as int == n * qb + (last_tick as int) % n,
                    (last_tick as int) % n == (tick as int) % n,
                    last_tick as int == tick as int + d,
            ;
            assert(qb - qa >= 1) by (nonlinear_arith)
                requires
                    n * (qb - qa) > 0,
                    n > 0,
            ;
            assert(n * (qb - qa) >= n) by (nonlinear_arith)
                requires
                    qb - qa >= 1,
                    n > 0,
            ;
        }
    }
}

} // verus!
