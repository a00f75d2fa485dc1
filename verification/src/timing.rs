//! The timing rules of the machine, driven by the cycle counter of the
//! processor alone: which interrupt vectors a step raises, and when a burst
//! of steps has run far enough ahead that the caller should rest.
//!
//! The display raises two interrupts per frame, one as the scan enters the
//! top of the frame and one as it enters the middle. A frame is split into
//! two half-frames of `HALF_FRAME_CYCLES` cycles, numbered from the start of
//! the counter; the top of a frame is the start of an even half-frame.

use crate::bus::{BusView, InvadersBus};
use vstd::prelude::*;

verus! {

/// Cycles that the processor runs per second.
pub const CLOCK_HZ: u64 = 2_000_000;

/// Frames that the display shows per second.
pub const REFRESH_HZ: u64 = 60;

/// Bursts per second: a little more often than the display refreshes, so
/// that the processor stays ahead of it.
pub const PACING_HZ: u64 = 90;

/// Cycles in half a frame: `CLOCK_HZ / REFRESH_HZ / 2`, rounded down.
pub const HALF_FRAME_CYCLES: u64 = 16_666;

/// The least number of cycles that fills a burst: the least `n` with
/// `n / CLOCK_HZ >= 1 / PACING_HZ`.
pub const BURST_CYCLES: u64 = 22_223;

/// Nanoseconds to rest between two bursts: one pacing interval, rounded
/// down.
pub const REST_NANOS: u64 = 11_111_111;

/// The vector raised on entry into an even half-frame.
pub const TOP_OF_FRAME_VECTOR: u8 = 0xCF;

/// The vector raised on entry into an odd half-frame.
pub const MID_FRAME_VECTOR: u8 = 0xD7;

/// The number of the half-frame that the counter value `cycles` lies in.
pub open spec fn half_frame_of(cycles: u64) -> int {
    cycles as int / HALF_FRAME_CYCLES as int
}

/// The vector raised on entry into the half-frame of number `half_frame`.
pub open spec fn vector_of(half_frame: int) -> u8 {
    if half_frame % 2 == 0 {
        TOP_OF_FRAME_VECTOR
    } else {
        MID_FRAME_VECTOR
    }
}

/// The vectors raised while the counter goes from `last` to `current`: one
/// for each half-frame entered on the way, in the order of entry. None if
/// the counter did not leave its half-frame.
pub open spec fn crossings(last: u64, current: u64) -> Seq<u8> {
    let entered = half_frame_of(current) - half_frame_of(last);
    Seq::new(
        if entered > 0 {
            entered as nat
        } else {
            0
        },
        |i: int| vector_of(half_frame_of(last) + 1 + i),
    )
}

/// The vectors raised while the counter passes through `samples` from the
/// first to the last, taken one pair of neighbours after the other.
pub open spec fn crossings_along(samples: Seq<u64>) -> Seq<u8>
    decreases samples.len(),
{
    if samples.len() < 2 {
        Seq::empty()
    } else {
        crossings_along(samples.drop_last()) + crossings(
            samples[samples.len() - 2],
            samples.last(),
        )
    }
}

/// The cycles that a step took which moved the counter from `last` to
/// `current`.
pub open spec fn cycles_between(last: u64, current: u64) -> int {
    if current >= last {
        current - last
    } else {
        0
    }
}

/// Whether a burst that ran `cycles` cycles is full: the time that the
/// machine takes for them is at least one pacing interval.
pub open spec fn burst_is_full(cycles: int) -> bool {
    cycles * PACING_HZ >= CLOCK_HZ
}

/// The number of the half-frame that the counter value `cycles` lies in.
pub fn half_frame(cycles: u64) -> (number: u64)
    ensures
        number == half_frame_of(cycles),
{
    cycles / HALF_FRAME_CYCLES
}

/// The vector raised on entry into the half-frame of number `half_frame`.
pub fn vector_for(half_frame: u64) -> (vector: u8)
    ensures
        vector == vector_of(half_frame as int),
{
    if half_frame % 2 == 0 {
        TOP_OF_FRAME_VECTOR
    } else {
        MID_FRAME_VECTOR
    }
}

/// Queues on `bus` the vectors raised while the counter went from `last` to
/// `current`, however many half-frames lie between the two.
pub fn raise_interrupts(bus: &mut InvadersBus, last: u64, current: u64)
    ensures
        final(bus)@ == (BusView {
            interrupts: old(bus)@.interrupts + crossings(last, current),
            ..old(bus)@
        }),
{
    let ghost before = bus@;
    let ghost raised = crossings(last, current);
    let first: u64 = half_frame(last);
    let target: u64 = half_frame(current);
    let mut reached: u64 = first;
    assert(before.interrupts + raised.take(0) =~= before.interrupts);
    while reached < target
        invariant
            first == half_frame_of(last),
            target == half_frame_of(current),
            raised == crossings(last, current),
            first <= reached,
            first < target ==> reached <= target,
            first >= target ==> reached == first,
            bus@ == (BusView { interrupts: before.interrupts + raised.take(reached - first), ..before }),
        decreases target - reached,
    {
        reached += 1;
        bus.push_interrupt(vector_for(reached));
        assert(before.interrupts + raised.take(reached - first) =~= (before.interrupts
            + raised.take(reached - first - 1)).push(vector_of(reached as int)));
    }
    assert(raised.take(reached - first) =~= raised);
}

/// What the caller of the pacer does next.
#[derive(Clone, Copy, Debug, PartialEq, Eq, Structural)]
pub enum Action {
    /// Run one more instruction.
    Step,
    /// Rest for this many nanoseconds, with no lock held, then run the next
    /// instruction.
    Rest(u64),
    /// The processor has stopped: leave the loop.
    Stop,
}

/// The action that follows a step which moved the counter from `last` to
/// `current`, in a burst that had run `burst` cycles before it, when the
/// processor reports `running`.
pub open spec fn action_after(burst: int, last: u64, current: u64, running: bool) -> Action {
    if !running {
        Action::Stop
    } else if burst_is_full(burst + cycles_between(last, current)) {
        Action::Rest(REST_NANOS)
    } else {
        Action::Step
    }
}

/// The cycles of the running burst after that step: the burst goes on while
/// the action is `Step`, and a new one begins otherwise.
pub open spec fn burst_after(burst: int, last: u64, current: u64, running: bool) -> int {
    if action_after(burst, last, current, running) == Action::Step {
        burst + cycles_between(last, current)
    } else {
        0
    }
}

/// Paces the processor in bursts: counts the cycles of the running burst.
pub struct Pacer {
    burst: u64,
}

impl View for Pacer {
    type V = int;

    /// The cycles that the running burst has run.
    closed spec fn view(&self) -> int {
        self.burst as int
    }
}

impl Pacer {
    /// Holds of every pacer: the running burst is not full.
    #[verifier::type_invariant]
    pub open spec fn inv(self) -> bool {
        0 <= self@ && !burst_is_full(self@)
    }

    /// A pacer at the start of a burst. The caller begins with one step.
    pub fn new() -> (pacer: Self)
        ensures
            pacer@ == 0,
    {
        Pacer { burst: 0 }
    }

    /// Takes note of one step of the processor, which moved its cycle counter
    /// from `last` to `current` and left it `running` or not. Queues on `bus`
    /// the vectors that the step raised and says what to do next: stop when
    /// the processor has stopped, rest when the burst is full, step
    /// otherwise.
    pub fn after_step(
        &mut self,
        bus: &mut InvadersBus,
        last: u64,
        current: u64,
        running: bool,
    ) -> (action: Action)
        ensures
            final(bus)@ == (BusView {
                interrupts: old(bus)@.interrupts + crossings(last, current),
                ..old(bus)@
            }),
            action == action_after(old(self)@, last, current, running),
            final(self)@ == burst_after(old(self)@, last, current, running),
    {
        proof {
            use_type_invariant(&*self);
        }
        raise_interrupts(bus, last, current);
        let taken: u64 = if current >= last {
            current - last
        } else {
            0
        };
        if !running {
            self.burst = 0;
            Action::Stop
        } else if taken >= BURST_CYCLES - self.burst {
            self.burst = 0;
            Action::Rest(REST_NANOS)
        } else {
            self.burst = self.burst + taken;
            Action::Step
        }
    }
}

/// Whether no sample is smaller than one before it.
pub open spec fn non_decreasing(samples: Seq<u64>) -> bool {
    forall|i: int, j: int| 0 <= i <= j < samples.len() ==> samples[i] <= samples[j]
}

/// The constants of this module are the ones that the clock, the refresh
/// rate and the pacing rate give.
pub proof fn lemma_constants()
    ensures
        HALF_FRAME_CYCLES == CLOCK_HZ / REFRESH_HZ / 2,
        REST_NANOS == 1_000_000_000int / PACING_HZ as int,
        burst_is_full(BURST_CYCLES as int),
        !burst_is_full(BURST_CYCLES - 1),
{
}

/// A burst is full from `BURST_CYCLES` cycles on, and not before.
pub proof fn lemma_burst_threshold(cycles: int)
    ensures
        burst_is_full(cycles) <==> cycles >= BURST_CYCLES,
{
}

/// While the counter goes up, one vector is raised for each half-frame
/// boundary that it crosses: as many as the half-frame numbers of `last` and
/// `current` differ by.
pub proof fn lemma_crossings_count(last: u64, current: u64)
    requires
        last <= current,
    ensures
        half_frame_of(last) <= half_frame_of(current),
        crossings(last, current).len() == half_frame_of(current) - half_frame_of(last),
{
    vstd::arithmetic::div_mod::lemma_div_is_ordered(
        last as int,
        current as int,
        HALF_FRAME_CYCLES as int,
    );
}

/// The vector of index `i` among those raised belongs to the half-frame
/// entered by the crossing of index `i`: it is the top-of-frame vector for an
/// even half-frame and the mid-frame vector for an odd one. Neighbours
/// differ, so the two vectors alternate.
pub proof fn lemma_crossings_alternate(last: u64, current: u64, i: int)
    requires
        0 <= i < crossings(last, current).len(),
    ensures
        crossings(last, current)[i] == vector_of(half_frame_of(last) + 1 + i),
        crossings(last, current)[i] == TOP_OF_FRAME_VECTOR <==> (half_frame_of(last) + 1 + i) % 2
            == 0,
        crossings(last, current)[i] == MID_FRAME_VECTOR <==> (half_frame_of(last) + 1 + i) % 2
            == 1,
        i + 1 < crossings(last, current).len() ==> crossings(last, current)[i + 1] != crossings(
            last,
            current,
        )[i],
{
}

/// Two steps in a row raise what one step over both raises: no vector is
/// lost and none is raised twice, wherever the first step ends.
pub proof fn lemma_crossings_compose(last: u64, middle: u64, current: u64)
    requires
        last <= middle <= current,
    ensures
        crossings(last, middle) + crossings(middle, current) == crossings(last, current),
{
    lemma_crossings_count(last, middle);
    lemma_crossings_count(middle, current);
    lemma_crossings_count(last, current);
    assert(crossings(last, middle) + crossings(middle, current) =~= crossings(last, current));
}

/// The cadence of the interrupts does not depend on the steps: a counter
/// that goes up through `samples` raises the same vectors, in the same
/// order, as one step from the first sample to the last. Their number is the
/// number of half-frame boundaries crossed.
pub proof fn lemma_crossings_along(samples: Seq<u64>)
    requires
        samples.len() >= 1,
        non_decreasing(samples),
    ensures
        crossings_along(samples) == crossings(samples.first(), samples.last()),
        crossings_along(samples).len() == half_frame_of(samples.last()) - half_frame_of(
            samples.first(),
        ),
    decreases samples.len(),
{
    if samples.len() == 1 {
        assert(crossings_along(samples) =~= crossings(samples.first(), samples.last()));
    } else {
        let front = samples.drop_last();
        assert(non_decreasing(front)) by {
            assert forall|i: int, j: int| 0 <= i <= j < front.len() implies front[i] <= front[j] by {
                assert(front[i] == samples[i] && front[j] == samples[j]);
            }
        }
        lemma_crossings_along(front);
        assert(front.first() == samples.first());
        assert(front.last() == samples[samples.len() - 2]);
        lemma_crossings_compose(samples.first(), front.last(), samples.last());
    }
    lemma_crossings_count(samples.first(), samples.last());
}

} // verus!
