//! The two generators. `SonyFlake` fails once its time has run out,
//! `InfallibleSonyFlake` starts over with the current time as its start time.
//!
//! A generator never blocks. Where the caller has to let the clock catch up
//! before the next id may go out, `next_id` says so with `Step::Wait`; the
//! call after the pause hands out the id. Whoever shares a generator keeps
//! it locked from the first of the two calls to the second.

use crate::clock::current_elapsed_time_at;
use crate::clock::elapsed_units;
use crate::clock::to_sonyflake_time;
use crate::clock::units_of;
use crate::clock::Timestamp;
use crate::clock::MAX_TIME_UNITS;
use crate::codec::pack;
use crate::codec::to_id;
use crate::codec::SEQUENCE_LIMIT;
use crate::codec::TIME_LIMIT;
use crate::error::Error;
use crate::settings::resolved_of;
use crate::settings::Settings;
use crate::settings::SettingsView;
use vstd::prelude::*;

verus! {

/// The largest elapsed time that a `SonyFlake` counts to. It lies twice
/// `MAX_TIME_UNITS` below the largest 64-bit number, so that the distance
/// from the clock to it still fits 64 bits, and far beyond the time limit.
pub const ELAPSED_TIME_MAX: i64 = 9_223_370_192_180_368_437;

/// What a call of `next_id` asks of its caller or gives to it.
#[derive(Copy, Clone, Debug, PartialEq, Eq)]
pub enum Step {
    /// The generator is ahead of the clock by this many time units. The
    /// caller pauses (see `sleep_time`) and calls again.
    Wait(i64),
    /// The next id.
    Id(u64),
}

/// The mathematical content of a generator.
pub struct State {
    /// The start time, in time units since the Unix epoch.
    pub start_time: int,
    /// The machine id.
    pub machine_id: int,
    /// The time unit, counted from the start time, of the last id.
    pub elapsed_time: int,
    /// The sequence number of the last id.
    pub sequence: int,
    /// Whether the id of `elapsed_time` and `sequence` is still to go out,
    /// after the caller's pause.
    pub waiting: bool,
}

impl State {
    /// What holds of the state of every generator.
    pub open spec fn wf(self) -> bool {
        &&& 0 <= self.machine_id < 0x1_0000
        &&& 0 <= self.elapsed_time
        &&& 0 <= self.sequence < SEQUENCE_LIMIT
    }

    /// The state of a new generator.
    pub open spec fn initial(start_time: int, machine_id: int) -> State {
        State { start_time, machine_id, elapsed_time: 0, sequence: 0, waiting: false }
    }

    /// The id of the state's time and sequence number.
    pub open spec fn id(self) -> int {
        pack(self.elapsed_time, self.sequence, self.machine_id)
    }

    /// Whether the elapsed time no longer fits an id.
    pub open spec fn overflowed(self) -> bool {
        self.elapsed_time >= TIME_LIMIT
    }

    /// The move to the time and sequence number of the next id, at `current`
    /// time units after the start time. A clock that is past the state's
    /// time unit opens a new one. Else the sequence number goes up by one;
    /// where it wraps to zero the state moves on to the next time unit, ahead
    /// of the clock, and the caller has to wait.
    pub open spec fn advance(self, current: int) -> State {
        if self.elapsed_time < current {
            State { elapsed_time: current, sequence: 0, ..self }
        } else {
            let sequence = (self.sequence + 1) % (SEQUENCE_LIMIT as int);
            if sequence == 0 {
                State { elapsed_time: self.elapsed_time + 1, sequence, waiting: true, ..self }
            } else {
                State { sequence, ..self }
            }
        }
    }

    /// What a `SonyFlake` hands out in this state: the state's id, or the
    /// error if the time has run out.
    pub open spec fn settle(self) -> Result<Step, Error> {
        if self.overflowed() {
            Err(Error::TimeOverflow)
        } else {
            Ok(Step::Id(self.id() as u64))
        }
    }

    /// One call of `SonyFlake::next_id` with the clock at `now_nanos`: the
    /// state after it and what it returns.
    pub open spec fn fail_fast(self, now_nanos: int) -> (State, Result<Step, Error>) {
        if self.waiting {
            let next = State { waiting: false, ..self };
            (next, next.settle())
        } else {
            let current = elapsed_units(now_nanos, self.start_time);
            let next = self.advance(current);
            if next.waiting {
                (next, Ok(Step::Wait((next.elapsed_time - current) as i64)))
            } else {
                (next, next.settle())
            }
        }
    }

    /// The state with the clock's time unit as its new start time, and
    /// nothing handed out since.
    pub open spec fn rebase(self, now_nanos: int) -> State {
        State {
            start_time: units_of(now_nanos),
            elapsed_time: 0,
            sequence: 0,
            waiting: false,
            ..self
        }
    }

    /// The state from which an `InfallibleSonyFlake` hands out its id: this
    /// one, or the rebased one if the time has run out.
    pub open spec fn heal(self, now_nanos: int) -> State {
        if self.overflowed() {
            self.rebase(now_nanos)
        } else {
            self
        }
    }

    /// One call of `InfallibleSonyFlake::next_id` with the clock at
    /// `now_nanos`: the state after it and what it returns.
    pub open spec fn self_healing(self, now_nanos: int) -> (State, Step) {
        if self.waiting {
            let next = (State { waiting: false, ..self }).heal(now_nanos);
            (next, Step::Id(next.id() as u64))
        } else {
            let current = elapsed_units(now_nanos, self.start_time);
            let next = self.advance(current);
            if next.waiting {
                (next, Step::Wait((next.elapsed_time - current) as i64))
            } else {
                let healed = next.heal(now_nanos);
                (healed, Step::Id(healed.id() as u64))
            }
        }
    }
}

/// The part of a generator that changes from id to id.
#[derive(Copy, Clone, Debug)]
struct Inner {
    elapsed_time: i64,
    sequence: u16,
    waiting: bool,
}

impl Inner {
    /// The move to the time and sequence number of the next id.
    fn advance(self, current: i64) -> (next: Inner)
        requires
            !self.waiting,
            0 <= self.elapsed_time < i64::MAX,
            self.sequence < SEQUENCE_LIMIT,
        ensures
            next.elapsed_time == if self.elapsed_time < current {
                current as int
            } else if self.sequence + 1 < SEQUENCE_LIMIT {
                self.elapsed_time as int
            } else {
                self.elapsed_time + 1
            },
            next.sequence == if self.elapsed_time < current {
                0
            } else {
                (self.sequence + 1) % (SEQUENCE_LIMIT as int)
            },
            next.waiting == (self.elapsed_time >= current && self.sequence + 1 == SEQUENCE_LIMIT),
    {
        let mask_sequence: u16 = 0xFF;
        let mut next = self;
        if next.elapsed_time < current {
            next.elapsed_time = current;
            next.sequence = 0;
        } else {
            let before: u16 = next.sequence;
            assert((before + 1) as u16 & 0xFF == (before + 1) % 0x100) by (bit_vector)
                requires
                    before < 0x100,
            ;
            next.sequence = (next.sequence + 1) & mask_sequence;
            if next.sequence == 0 {
                next.elapsed_time += 1;
                next.waiting = true;
            }
        }
        next
    }
}

/// SonyFlake is a distributed unique ID generator. It fails to generate an
/// id once its time has run out.
#[derive(Debug)]
pub struct SonyFlake {
    start_time: i64,
    machine_id: u16,
    inner: Inner,
}

impl View for SonyFlake {
    type V = State;

    closed spec fn view(&self) -> State {
        State {
            start_time: self.start_time as int,
            machine_id: self.machine_id as int,
            elapsed_time: self.inner.elapsed_time as int,
            sequence: self.inner.sequence as int,
            waiting: self.inner.waiting,
        }
    }
}

impl SonyFlake {
    #[verifier::type_invariant]
    closed spec fn inv(self) -> bool {
        &&& -MAX_TIME_UNITS <= self.start_time <= MAX_TIME_UNITS
        &&& 0 <= self.inner.elapsed_time <= ELAPSED_TIME_MAX
        &&& self.inner.sequence < SEQUENCE_LIMIT
    }

    /// Whether the generator can count on: its elapsed time is below
    /// `ELAPSED_TIME_MAX`. A generator gets there only long after its time
    /// has run out.
    pub open spec fn has_room(&self) -> bool {
        self@.elapsed_time < ELAPSED_TIME_MAX
    }

    /// Whether `made` is what `SonyFlake::new` can return for `settings`: a
    /// new generator with the start time and the machine id that the
    /// settings resolve to, or the error that they resolve to.
    pub open spec fn made_of(settings: SettingsView, made: Result<SonyFlake, Error>) -> bool {
        match made {
            Ok(flake) => {
                &&& flake@ == State::initial(flake@.start_time, flake@.machine_id)
                &&& -MAX_TIME_UNITS <= flake@.start_time <= MAX_TIME_UNITS
                &&& flake@.wf()
                &&& flake.has_room()
                &&& resolved_of(settings, Ok((flake@.start_time as i64, flake@.machine_id as u16)))
            },
            Err(e) => resolved_of(settings, Err(e)),
        }
    }

    /// Creates a generator from settings. It reads the wall clock, asks the
    /// source for the machine id, where there is one, and lets the checker,
    /// where there is one, judge the id.
    pub fn new(st: Settings) -> (made: Result<Self, Error>)
        ensures
            SonyFlake::made_of(st@, made),
    {
        match st.resolve() {
            Ok((start_time, machine_id)) => Ok(
                SonyFlake {
                    start_time,
                    machine_id,
                    inner: Inner { elapsed_time: 0, sequence: 0, waiting: false },
                },
            ),
            Err(e) => Err(e),
        }
    }

    /// The start time, in time units since the Unix epoch.
    pub fn start_time(&self) -> (start_time: i64)
        ensures
            start_time == self@.start_time,
    {
        self.start_time
    }

    /// The machine id.
    pub fn machine_id(&self) -> (machine_id: u16)
        ensures
            machine_id == self@.machine_id,
    {
        self.machine_id
    }

    /// The time unit, counted from the start time, that the generator is in.
    pub fn elapsed_time(&self) -> (elapsed_time: i64)
        ensures
            elapsed_time == self@.elapsed_time,
    {
        self.inner.elapsed_time
    }

    /// The sequence number that the generator is at.
    pub fn sequence(&self) -> (sequence: u16)
        ensures
            sequence == self@.sequence,
    {
        self.inner.sequence
    }

    /// Whether the generator has room to count on (see `has_room`).
    pub fn can_advance(&self) -> (room: bool)
        ensures
            room == self.has_room(),
    {
        self.inner.elapsed_time < ELAPSED_TIME_MAX
    }

    /// The next step towards an id, for a clock that shows `now`: what
    /// `State::fail_fast` says.
    pub fn next_id_at(&mut self, now: Timestamp) -> (step: Result<Step, Error>)
        requires
            old(self).has_room(),
        ensures
            (final(self)@, step) == old(self)@.fail_fast(now.nanos as int),
            old(self)@.wf(),
            final(self)@.wf(),
    {
        proof {
            use_type_invariant(&*self);
        }
        let mut inner = self.inner;
        if inner.waiting {
            inner.waiting = false;
        } else {
            let current = current_elapsed_time_at(self.start_time, now);
            inner = inner.advance(current);
            if inner.waiting {
                let overtime: i64 = inner.elapsed_time - current;
                *self = SonyFlake {
                    start_time: self.start_time,
                    machine_id: self.machine_id,
                    inner,
                };
                return Ok(Step::Wait(overtime));
            }
        }
        *self = SonyFlake { start_time: self.start_time, machine_id: self.machine_id, inner };
        if inner.elapsed_time >= TIME_LIMIT {
            return Err(Error::TimeOverflow);
        }
        Ok(Step::Id(to_id(inner.elapsed_time, inner.sequence, self.machine_id)))
    }

    /// The next step towards an id. It reads the wall clock: the step is
    /// what `next_id_at` takes for some reading of it.
    pub fn next_id(&mut self) -> (step: Result<Step, Error>)
        requires
            old(self).has_room(),
        ensures
            exists|now: Timestamp|
                (final(self)@, step) == #[trigger] old(self)@.fail_fast(now.nanos as int),
            old(self)@.wf(),
            final(self)@.wf(),
    {
        let now = Timestamp::now();
        self.next_id_at(now)
    }
}

/// InfallibleSonyFlake is a distributed unique ID generator that always
/// generates an id. Once its time has run out it takes the current time as
/// its new start time.
#[derive(Debug)]
pub struct InfallibleSonyFlake {
    start_time: i64,
    machine_id: u16,
    inner: Inner,
}

impl View for InfallibleSonyFlake {
    type V = State;

    closed spec fn view(&self) -> State {
        State {
            start_time: self.start_time as int,
            machine_id: self.machine_id as int,
            elapsed_time: self.inner.elapsed_time as int,
            sequence: self.inner.sequence as int,
            waiting: self.inner.waiting,
        }
    }
}

impl InfallibleSonyFlake {
    #[verifier::type_invariant]
    closed spec fn inv(self) -> bool {
        &&& -MAX_TIME_UNITS <= self.start_time <= MAX_TIME_UNITS
        &&& 0 <= self.inner.elapsed_time <= TIME_LIMIT
        &&& self.inner.elapsed_time == TIME_LIMIT ==> self.inner.waiting
        &&& self.inner.sequence < SEQUENCE_LIMIT
    }

    /// Whether `made` is what `InfallibleSonyFlake::new` can return for
    /// `settings`: a new generator with the start time and the machine id
    /// that the settings resolve to, or the error that they resolve to.
    pub open spec fn made_of(settings: SettingsView, made: Result<InfallibleSonyFlake, Error>)
        -> bool {
        match made {
            Ok(flake) => {
                &&& flake@ == State::initial(flake@.start_time, flake@.machine_id)
                &&& -MAX_TIME_UNITS <= flake@.start_time <= MAX_TIME_UNITS
                &&& flake@.wf()
                &&& resolved_of(settings, Ok((flake@.start_time as i64, flake@.machine_id as u16)))
            },
            Err(e) => resolved_of(settings, Err(e)),
        }
    }

    /// Creates a generator from settings. It reads the wall clock, asks the
    /// source for the machine id, where there is one, and lets the checker,
    /// where there is one, judge the id.
    pub fn new(st: Settings) -> (made: Result<Self, Error>)
        ensures
            InfallibleSonyFlake::made_of(st@, made),
    {
        match st.resolve() {
            Ok((start_time, machine_id)) => Ok(
                InfallibleSonyFlake {
                    start_time,
                    machine_id,
                    inner: Inner { elapsed_time: 0, sequence: 0, waiting: false },
                },
            ),
            Err(e) => Err(e),
        }
    }

    /// The start time, in time units since the Unix epoch.
    pub fn start_time(&self) -> (start_time: i64)
        ensures
            start_time == self@.start_time,
    {
        self.start_time
    }

    /// The machine id.
    pub fn machine_id(&self) -> (machine_id: u16)
        ensures
            machine_id == self@.machine_id,
    {
        self.machine_id
    }

    /// The time unit, counted from the start time, that the generator is in.
    pub fn elapsed_time(&self) -> (elapsed_time: i64)
        ensures
            elapsed_time == self@.elapsed_time,
    {
        self.inner.elapsed_time
    }

    /// The sequence number that the generator is at.
    pub fn sequence(&self) -> (sequence: u16)
        ensures
            sequence == self@.sequence,
    {
        self.inner.sequence
    }

    /// The next step towards an id, for a clock that shows `now`: what
    /// `State::self_healing` says.
    pub fn next_id_at(&mut self, now: Timestamp) -> (step: Step)
        ensures
            (final(self)@, step) == old(self)@.self_healing(now.nanos as int),
            old(self)@.wf(),
            final(self)@.wf(),
            !final(self)@.waiting ==> !final(self)@.overflowed(),
    {
        proof {
            use_type_invariant(&*self);
        }
        let mut inner = self.inner;
        if inner.waiting {
            inner.waiting = false;
        } else {
            let current = current_elapsed_time_at(self.start_time, now);
            inner = inner.advance(current);
            if inner.waiting {
                let overtime: i64 = inner.elapsed_time - current;
                *self = InfallibleSonyFlake {
                    start_time: self.start_time,
                    machine_id: self.machine_id,
                    inner,
                };
                return Step::Wait(overtime);
            }
        }
        let mut start_time = self.start_time;
        if inner.elapsed_time >= TIME_LIMIT {
            start_time = to_sonyflake_time(now);
            inner.elapsed_time = 0;
            inner.sequence = 0;
        }
        *self = InfallibleSonyFlake { start_time, machine_id: self.machine_id, inner };
        Step::Id(to_id(inner.elapsed_time, inner.sequence, self.machine_id))
    }

    /// The next step towards an id. It reads the wall clock: the step is
    /// what `next_id_at` takes for some reading of it.
    pub fn next_id(&mut self) -> (step: Step)
        ensures
            exists|now: Timestamp|
                (final(self)@, step) == #[trigger] old(self)@.self_healing(now.nanos as int),
            old(self)@.wf(),
            final(self)@.wf(),
            !final(self)@.waiting ==> !final(self)@.overflowed(),
    {
        let now = Timestamp::now();
        self.next_id_at(now)
    }
}

} // verus!
