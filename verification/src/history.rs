//! What holds of a generator over any number of calls, whatever the clock
//! shows at each of them: the clock may stand still or run backwards.

use crate::clock::elapsed_units;
use crate::clock::lemma_pause_ends_at_the_time_unit;
use crate::clock::pause_nanos;
use crate::clock::remainder_of;
use crate::codec::lemma_decompose_to_id;
use crate::codec::lemma_pack_is_bounded;
use crate::codec::lemma_to_id_is_pack;
use crate::codec::pack;
use crate::codec::parts_of;
use crate::codec::Parts;
use crate::codec::SEQUENCE_LIMIT;
use crate::error::Error;
use crate::flake::State;
use crate::flake::Step;
use vstd::prelude::*;

verus! {

impl State {
    /// The mark that no id handed out so far has passed: the state's own id,
    /// or the one before it while that id is still to go out.
    pub open spec fn high_water(self) -> int {
        if self.waiting {
            self.id() - 1
        } else {
            self.id()
        }
    }

    /// A `SonyFlake` over a run of calls, one for each clock reading in
    /// `clocks`: the state after the run and the ids that it handed out, in
    /// their order.
    pub open spec fn fail_fast_run(self, clocks: Seq<int>) -> (State, Seq<u64>)
        decreases clocks.len(),
    {
        if clocks.len() == 0 {
            (self, Seq::empty())
        } else {
            let (before, ids) = self.fail_fast_run(clocks.drop_last());
            let (after, step) = before.fail_fast(clocks.last());
            (
                after,
                match step {
                    Ok(Step::Id(id)) => ids.push(id),
                    _ => ids,
                },
            )
        }
    }

    /// An `InfallibleSonyFlake` over a run of calls, one for each clock
    /// reading in `clocks`: the state after the run and the ids that it
    /// handed out since it last took a new start time, in their order. The
    /// first of them is the id of the rebase, if there was one.
    pub open spec fn self_healing_run(self, clocks: Seq<int>) -> (State, Seq<u64>)
        decreases clocks.len(),
    {
        if clocks.len() == 0 {
            (self, Seq::empty())
        } else {
            let (before, ids) = self.self_healing_run(clocks.drop_last());
            let (after, step) = before.self_healing(clocks.last());
            (
                after,
                match step {
                    Step::Id(id) => if before.rebases(clocks.last()) {
                        seq![id]
                    } else {
                        ids.push(id)
                    },
                    Step::Wait(_) => ids,
                },
            )
        }
    }

    /// Whether a call of `InfallibleSonyFlake::next_id` in this state, with
    /// the clock at `now_nanos`, finds that the time has run out and takes a
    /// new start time.
    pub open spec fn rebases(self, now_nanos: int) -> bool {
        if self.waiting {
            self.overflowed()
        } else {
            let next = self.advance(elapsed_units(now_nanos, self.start_time));
            !next.waiting && next.overflowed()
        }
    }
}

/// An id that a generator hands out shows the generator's state: taken
/// apart it gives the state's elapsed time, sequence number and machine id,
/// and its top bit is zero.
pub proof fn lemma_id_shows_state(state: State)
    requires
        state.wf(),
        !state.overflowed(),
    ensures
        state.id() == state.id() as u64,
        parts_of(state.id() as u64) == (Parts {
            id: state.id() as nat,
            msb: 0,
            time: state.elapsed_time as nat,
            sequence: state.sequence as nat,
            machine_id: state.machine_id as nat,
        }),
{
    lemma_pack_is_bounded(state.elapsed_time, state.sequence, state.machine_id);
    lemma_decompose_to_id(
        state.elapsed_time as i64,
        state.sequence as u16,
        state.machine_id as u16,
    );
    lemma_to_id_is_pack(state.elapsed_time as i64, state.sequence as u16, state.machine_id as u16);
}

/// Whether each id in the sequence is greater than the one before it.
pub open spec fn strictly_increasing(ids: Seq<u64>) -> bool {
    forall|i: int, j: int| 0 <= i < j < ids.len() ==> ids[i] < ids[j]
}

/// One call of `SonyFlake::next_id`, whatever the clock shows. The machine
/// id and the start time stay. An id that goes out is greater than the
/// state's mark, is the new mark, and has its parts in range. An error is
/// `TimeOverflow`, and comes exactly when no id can go out any more. After
/// `Wait` the next call does not ask to wait again.
pub proof fn lemma_fail_fast_step(state: State, now_nanos: int)
    requires
        state.wf(),
    ensures
        ({
            let (next, step) = state.fail_fast(now_nanos);
            &&& next.wf()
            &&& next.machine_id == state.machine_id
            &&& next.start_time == state.start_time
            &&& state.elapsed_time <= next.elapsed_time
            &&& state.high_water() <= next.high_water()
            &&& step matches Ok(Step::Id(id)) ==> {
                &&& state.high_water() < id
                &&& id == next.high_water()
                &&& id == next.id()
                &&& !next.overflowed()
                &&& !next.waiting
            }
            &&& step matches Err(e) ==> e == Error::TimeOverflow && next.overflowed()
                && !next.waiting
            &&& step is Ok ==> (next.waiting <==> step->Ok_0 is Wait)
            &&& step matches Ok(Step::Wait(_)) ==> !state.waiting
            &&& (next.overflowed() && !next.waiting) ==> step is Err
        }),
{
    let (next, step) = state.fail_fast(now_nanos);
    if !next.overflowed() {
        lemma_pack_is_bounded(next.elapsed_time, next.sequence, next.machine_id);
    }
}

/// Monotonicity: the ids that one `SonyFlake` hands out over any run of
/// calls are strictly increasing, so no two of them are equal. None of them
/// is above the mark of the state after the run.
pub proof fn lemma_fail_fast_ids_increase(state: State, clocks: Seq<int>)
    requires
        state.wf(),
    ensures
        strictly_increasing(state.fail_fast_run(clocks).1),
        state.fail_fast_run(clocks).0.wf(),
        state.fail_fast_run(clocks).0.machine_id == state.machine_id,
        state.high_water() <= state.fail_fast_run(clocks).0.high_water(),
        forall|i: int|
            0 <= i < state.fail_fast_run(clocks).1.len() ==> state.high_water()
                < #[trigger] state.fail_fast_run(clocks).1[i] <= state.fail_fast_run(
                clocks,
            ).0.high_water(),
    decreases clocks.len(),
{
    if clocks.len() > 0 {
        lemma_fail_fast_ids_increase(state, clocks.drop_last());
        let (before, ids) = state.fail_fast_run(clocks.drop_last());
        lemma_fail_fast_step(before, clocks.last());
    }
}

/// The ids of one `SonyFlake` are pairwise distinct.
pub proof fn lemma_fail_fast_ids_are_distinct(state: State, clocks: Seq<int>)
    requires
        state.wf(),
    ensures
        forall|i: int, j: int|
            0 <= i < state.fail_fast_run(clocks).1.len() && 0 <= j < state.fail_fast_run(
                clocks,
            ).1.len() && i != j ==> state.fail_fast_run(clocks).1[i] != state.fail_fast_run(
                clocks,
            ).1[j],
{
    lemma_fail_fast_ids_increase(state, clocks);
    let ids = state.fail_fast_run(clocks).1;
    assert forall|i: int, j: int| 0 <= i < ids.len() && 0 <= j < ids.len() && i != j implies ids[i]
        != ids[j] by {
        if i < j {
            assert(ids[i] < ids[j]);
        } else {
            assert(ids[j] < ids[i]);
        }
    }
}

/// Once the time of a `SonyFlake` has run out it stays so: whatever the
/// clock shows from then on, no id goes out any more, and every call that
/// does not ask to wait returns `TimeOverflow`.
pub proof fn lemma_overflow_is_permanent(state: State, clocks: Seq<int>)
    requires
        state.wf(),
        state.overflowed(),
    ensures
        state.fail_fast_run(clocks).0.overflowed(),
        state.fail_fast_run(clocks).0.wf(),
        state.fail_fast_run(clocks).1.len() == 0,
        forall|now_nanos: int|
            #![trigger state.fail_fast_run(clocks).0.fail_fast(now_nanos)]
            {
                let step = state.fail_fast_run(clocks).0.fail_fast(now_nanos).1;
                step == Err::<Step, Error>(Error::TimeOverflow) || step is Ok && step->Ok_0 is Wait
            },
    decreases clocks.len(),
{
    if clocks.len() > 0 {
        lemma_overflow_is_permanent(state, clocks.drop_last());
        let (before, ids) = state.fail_fast_run(clocks.drop_last());
        lemma_fail_fast_step(before, clocks.last());
    }
    let after = state.fail_fast_run(clocks).0;
    assert forall|now_nanos: int|
        #![trigger after.fail_fast(now_nanos)]
        {
            let step = after.fail_fast(now_nanos).1;
            step == Err::<Step, Error>(Error::TimeOverflow) || step is Ok && step->Ok_0 is Wait
        } by {
        lemma_fail_fast_step(after, now_nanos);
    }
}

/// Sequence exhaustion: a time unit holds 256 ids. While the clock is not
/// past the state's time unit, every call hands out the id with the next
/// sequence number of that unit, up to number 255. The call after that moves
/// on to the next time unit and asks the caller to wait until the clock is
/// there: for as many time units as the new one is ahead of the clock.
pub proof fn lemma_time_unit_holds_256_ids(state: State, now_nanos: int)
    requires
        state.wf(),
        !state.waiting,
        elapsed_units(now_nanos, state.start_time) <= state.elapsed_time,
    ensures
        ({
            let (next, step) = state.fail_fast(now_nanos);
            let (healed, healing_step) = state.self_healing(now_nanos);
            let overtime = state.elapsed_time + 1 - elapsed_units(now_nanos, state.start_time);
            if state.sequence + 1 < SEQUENCE_LIMIT {
                &&& next == (State { sequence: state.sequence + 1, ..state })
                &&& !state.overflowed() ==> step == Ok::<Step, Error>(
                    Step::Id(
                        pack(state.elapsed_time, state.sequence + 1, state.machine_id) as u64,
                    ),
                )
                &&& !state.overflowed() ==> healed == next && Ok::<Step, Error>(healing_step)
                    == step
            } else {
                &&& next == (State {
                    elapsed_time: state.elapsed_time + 1,
                    sequence: 0,
                    waiting: true,
                    ..state
                })
                &&& step == Ok::<Step, Error>(Step::Wait(overtime as i64))
                &&& healed == next
                &&& healing_step == Step::Wait(overtime as i64)
                &&& overtime >= 1
            }
        }),
{
}

/// A caller who pauses as `Wait` asks lets the clock catch up: where a
/// generator that is not waiting moves ahead of a clock at `now_nanos`, the
/// clock shows the generator's new time unit, and its very start, after the
/// pause for the overtime.
pub proof fn lemma_pause_lets_the_clock_catch_up(state: State, now_nanos: int)
    requires
        state.wf(),
        !state.waiting,
        state.advance(elapsed_units(now_nanos, state.start_time)).waiting,
    ensures
        ({
            let current = elapsed_units(now_nanos, state.start_time);
            let next = state.advance(current);
            let overtime = next.elapsed_time - current;
            let after = now_nanos + pause_nanos(overtime, now_nanos);
            &&& overtime >= 1
            &&& state.fail_fast(now_nanos).0 == next
            &&& state.self_healing(now_nanos).0 == next
            &&& elapsed_units(after, state.start_time) == next.elapsed_time
            &&& remainder_of(after) == 0
        }),
{
    let current = elapsed_units(now_nanos, state.start_time);
    lemma_pause_ends_at_the_time_unit(state.advance(current).elapsed_time - current, now_nanos);
}

/// One call of `InfallibleSonyFlake::next_id`, whatever the clock shows. The
/// machine id stays. A call that takes no new start time leaves the start
/// time as it is, and an id that it hands out is greater than the state's
/// mark and is the new mark. A call that takes a new start time hands out
/// the first id of that start time. After `Wait` the next call hands out an
/// id.
pub proof fn lemma_self_healing_step(state: State, now_nanos: int)
    requires
        state.wf(),
    ensures
        ({
            let (next, step) = state.self_healing(now_nanos);
            &&& next.wf()
            &&& next.machine_id == state.machine_id
            &&& next.waiting <==> step is Wait
            &&& step is Wait ==> !state.waiting
            &&& !next.waiting ==> !next.overflowed()
            &&& step matches Step::Id(id) ==> id == next.id() && id == next.high_water()
            &&& !state.rebases(now_nanos) ==> {
                &&& next.start_time == state.start_time
                &&& state.high_water() <= next.high_water()
                &&& step matches Step::Id(id) ==> state.high_water() < id
            }
            &&& state.rebases(now_nanos) ==> {
                &&& next == state.rebase(now_nanos)
                &&& step == Step::Id(pack(0, 0, state.machine_id) as u64)
            }
        }),
{
    let (next, step) = state.self_healing(now_nanos);
    if !next.overflowed() {
        lemma_pack_is_bounded(next.elapsed_time, next.sequence, next.machine_id);
    }
}

/// The ids that one `InfallibleSonyFlake` hands out between two rebases are
/// strictly increasing: each call after a rebase returns a greater id than
/// the one before it, until the time runs out again.
pub proof fn lemma_self_healing_ids_increase(state: State, clocks: Seq<int>)
    requires
        state.wf(),
    ensures
        strictly_increasing(state.self_healing_run(clocks).1),
        state.self_healing_run(clocks).0.wf(),
        state.self_healing_run(clocks).0.machine_id == state.machine_id,
        forall|i: int|
            0 <= i < state.self_healing_run(clocks).1.len()
                ==> #[trigger] state.self_healing_run(clocks).1[i] <= state.self_healing_run(
                clocks,
            ).0.high_water(),
    decreases clocks.len(),
{
    if clocks.len() > 0 {
        lemma_self_healing_ids_increase(state, clocks.drop_last());
        let (before, ids) = state.self_healing_run(clocks.drop_last());
        lemma_self_healing_step(before, clocks.last());
    }
}

} // verus!
