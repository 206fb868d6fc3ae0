//! What a generator is built from: a start time, a source of the machine id
//! and a checker of it, each of them optional.

use crate::clock::to_sonyflake_time;
use crate::clock::units_of;
use crate::clock::Timestamp;
use crate::clock::MAX_TIME_UNITS;
use crate::error::Error;
use crate::flake::InfallibleSonyFlake;
use crate::flake::SonyFlake;
use crate::machine::lower_16_bit_private_ip;
use crate::machine::spec_lower_16_bit_private_ip;
use crate::machine::Interface;
use vstd::prelude::*;

verus! {

/// The start time of a generator that was given none, in nanoseconds since
/// the Unix epoch: 2021-08-06 00:00:00 UTC.
pub const DEFAULT_START_NANOS: i64 = 1_628_208_000_000_000_000;

/// `MachineID` is for a custom source of the machine id.
pub trait MachineID {
    /// `machine_id` returns the unique id of the generator's machine.
    /// If it returns an error, the generator is not created: the error's
    /// text is handed on as the cause.
    fn machine_id(&mut self) -> Result<u16, String>;
}

/// `MachineIDChecker` is for a custom check of the machine id.
pub trait MachineIDChecker {
    /// `check_machine_id` validates the uniqueness of the machine id.
    /// If it returns false, the generator is not created.
    fn check_machine_id(&self, id: u16) -> bool;
}

/// A builder of generators.
pub struct Settings {
    start_time: Option<Timestamp>,
    machine_id: Option<Box<dyn MachineID>>,
    check_machine_id: Option<Box<dyn MachineIDChecker>>,
    interfaces: Vec<Interface>,
}

/// The mathematical content of a `Settings`: of the source and the checker
/// only whether there is one.
pub struct SettingsView {
    pub start_time: Option<Timestamp>,
    pub has_machine_id: bool,
    pub has_check_machine_id: bool,
    pub interfaces: Seq<Interface>,
}

impl View for Settings {
    type V = SettingsView;

    closed spec fn view(&self) -> SettingsView {
        SettingsView {
            start_time: self.start_time,
            has_machine_id: self.machine_id is Some,
            has_check_machine_id: self.check_machine_id is Some,
            interfaces: self.interfaces@,
        }
    }
}

/// The start time of a generator in time units, as its settings and the
/// clock decide it: a start time that was set counts unless it is ahead of
/// `now_nanos`, which is an error; without one the default counts, whatever
/// the clock says.
pub open spec fn spec_start_time(start_time: Option<Timestamp>, now_nanos: int) -> Result<
    i64,
    Error,
> {
    match start_time {
        Some(time) => if time.nanos > now_nanos {
            Err(Error::StartTimeAheadOfCurrentTime(time))
        } else {
            Ok(units_of(time.nanos as int) as i64)
        },
        None => Ok(units_of(DEFAULT_START_NANOS as int) as i64),
    }
}

/// The machine id before it is checked. `provided` is what the source of
/// machine ids returned, `None` where no source is set: then the host's
/// interfaces give the machine id.
pub open spec fn spec_resolve_machine_id(
    provided: Option<Result<u16, String>>,
    interfaces: Seq<Interface>,
) -> Result<u16, Error> {
    match provided {
        Some(Ok(id)) => Ok(id),
        Some(Err(cause)) => Err(Error::MachineIdFailed(cause)),
        None => spec_lower_16_bit_private_ip(interfaces),
    }
}

/// The machine id after the check. `verdict` is what the checker said of
/// the resolved id, `None` where nothing was asked.
pub open spec fn spec_check_machine_id(resolved: Result<u16, Error>, verdict: Option<bool>)
    -> Result<u16, Error> {
    match resolved {
        Ok(id) => if verdict == Some(false) {
            Err(Error::InvalidMachineID(id))
        } else {
            Ok(id)
        },
        Err(e) => Err(e),
    }
}

/// Whether `provided` and `verdict` can be what the source and the checker
/// of `settings` said: the source is asked exactly if there is one, the
/// checker exactly if there is one and there is a machine id to check.
pub open spec fn answers_fit(
    settings: SettingsView,
    provided: Option<Result<u16, String>>,
    verdict: Option<bool>,
) -> bool {
    &&& provided is Some <==> settings.has_machine_id
    &&& verdict is Some <==> (settings.has_check_machine_id && spec_resolve_machine_id(
        provided,
        settings.interfaces,
    ) is Ok)
}

/// The machine id of a generator, as its settings, its source and its
/// checker decide it.
pub open spec fn spec_machine_id(
    settings: SettingsView,
    provided: Option<Result<u16, String>>,
    verdict: Option<bool>,
) -> Result<u16, Error> {
    spec_check_machine_id(spec_resolve_machine_id(provided, settings.interfaces), verdict)
}

/// The start time in time units and the machine id of the generator that
/// is made of `settings`, or the error that says why none is made.
/// `now_nanos` is the clock's reading, `provided` and `verdict` are what the
/// source and the checker said. The start time is decided first.
pub open spec fn spec_resolve(
    settings: SettingsView,
    now_nanos: int,
    provided: Option<Result<u16, String>>,
    verdict: Option<bool>,
) -> Result<(i64, u16), Error> {
    match spec_start_time(settings.start_time, now_nanos) {
        Err(e) => Err(e),
        Ok(start_time) => match spec_machine_id(settings, provided, verdict) {
            Err(e) => Err(e),
            Ok(machine_id) => Ok((start_time, machine_id)),
        },
    }
}

/// Whether `resolved` is what `settings` resolve to for some reading of the
/// clock and some answers of the source and the checker.
pub open spec fn resolved_of(settings: SettingsView, resolved: Result<(i64, u16), Error>) -> bool {
    exists|now: Timestamp, provided: Option<Result<u16, String>>, verdict: Option<bool>|
        #![auto]
        answers_fit(settings, provided, verdict) && resolved == spec_resolve(
            settings,
            now.nanos as int,
            provided,
            verdict,
        )
}

/// The start time of a generator that was given none.
pub fn default_start_time() -> (time: Timestamp)
    ensures
        time.nanos == DEFAULT_START_NANOS,
{
    Timestamp { nanos: DEFAULT_START_NANOS }
}

/// Decides the machine id before the check, from what the source returned.
pub fn resolve_machine_id(
    provided: Option<Result<u16, String>>,
    interfaces: &Vec<Interface>,
) -> (resolved: Result<u16, Error>)
    ensures
        resolved == spec_resolve_machine_id(provided, interfaces@),
{
    match provided {
        Some(Ok(id)) => Ok(id),
        Some(Err(cause)) => Err(Error::MachineIdFailed(cause)),
        None => lower_16_bit_private_ip(interfaces),
    }
}

/// Decides the machine id from the checker's verdict on it.
pub fn check_machine_id(id: u16, verdict: Option<bool>) -> (checked: Result<u16, Error>)
    ensures
        checked == spec_check_machine_id(Ok(id), verdict),
{
    match verdict {
        Some(false) => Err(Error::InvalidMachineID(id)),
        _ => Ok(id),
    }
}

impl Default for Settings {
    fn default() -> (settings: Self)
        ensures
            settings@ == (SettingsView {
                start_time: None,
                has_machine_id: false,
                has_check_machine_id: false,
                interfaces: Seq::empty(),
            }),
    {
        Settings::new()
    }
}

impl Settings {
    /// Settings with nothing set: a generator made of them starts at the
    /// default start time and takes its machine id from the host's
    /// interfaces, of which none is known yet.
    pub fn new() -> (settings: Self)
        ensures
            settings@ == (SettingsView {
                start_time: None,
                has_machine_id: false,
                has_check_machine_id: false,
                interfaces: Seq::empty(),
            }),
    {
        Self { start_time: None, machine_id: None, check_machine_id: None, interfaces: Vec::new() }
    }

    /// Sets the start time.
    /// If the time is ahead of the current time, no generator is created.
    pub fn set_start_time(self, start_time: Timestamp) -> (settings: Self)
        ensures
            settings@ == (SettingsView { start_time: Some(start_time), ..self@ }),
    {
        Self {
            start_time: Some(start_time),
            machine_id: self.machine_id,
            check_machine_id: self.check_machine_id,
            interfaces: self.interfaces,
        }
    }

    /// Sets the source of the machine id.
    /// If the source returns an error, no generator is created.
    pub fn set_machine_id(self, machine_id: Box<dyn MachineID>) -> (settings: Self)
        ensures
            settings@ == (SettingsView { has_machine_id: true, ..self@ }),
    {
        Self {
            start_time: self.start_time,
            machine_id: Some(machine_id),
            check_machine_id: self.check_machine_id,
            interfaces: self.interfaces,
        }
    }

    /// Sets the checker of the machine id.
    /// If the checker returns false, no generator is created.
    pub fn set_check_machine_id(self, check_machine_id: Box<dyn MachineIDChecker>) -> (settings:
        Self)
        ensures
            settings@ == (SettingsView { has_check_machine_id: true, ..self@ }),
    {
        Self {
            start_time: self.start_time,
            machine_id: self.machine_id,
            check_machine_id: Some(check_machine_id),
            interfaces: self.interfaces,
        }
    }

    /// Sets the host's network interfaces. They are looked at only where no
    /// source of the machine id is set.
    pub fn set_interfaces(self, interfaces: Vec<Interface>) -> (settings: Self)
        ensures
            settings@ == (SettingsView { interfaces: interfaces@, ..self@ }),
    {
        Self {
            start_time: self.start_time,
            machine_id: self.machine_id,
            check_machine_id: self.check_machine_id,
            interfaces,
        }
    }

    /// The start time in time units, for a clock that shows `now`.
    pub fn get_start_time_at(&self, now: Timestamp) -> (start_time: Result<i64, Error>)
        ensures
            start_time == spec_start_time(self@.start_time, now.nanos as int),
    {
        if let Some(start_time) = self.start_time {
            if start_time.nanos > now.nanos {
                return Err(Error::StartTimeAheadOfCurrentTime(start_time));
            }
            Ok(to_sonyflake_time(start_time))
        } else {
            Ok(to_sonyflake_time(default_start_time()))
        }
    }

    /// The start time in time units: for some reading of the wall clock,
    /// what `get_start_time_at` returns.
    pub fn get_start_time(&self) -> (start_time: Result<i64, Error>)
        ensures
            exists|now: Timestamp|
                start_time == spec_start_time(self@.start_time, now.nanos as int),
    {
        let now = Timestamp::now();
        self.get_start_time_at(now)
    }

    /// The machine id: asks the source for it, or takes it from the host's
    /// interfaces where there is no source, and lets the checker, if there
    /// is one, judge it. What the source and the checker say is theirs to
    /// decide: the result is `spec_machine_id` of their answers.
    pub fn get_and_check_machine_id(self) -> (machine_id: Result<u16, Error>)
        ensures
            exists|provided: Option<Result<u16, String>>, verdict: Option<bool>|
                answers_fit(self@, provided, verdict) && machine_id == spec_machine_id(
                    self@,
                    provided,
                    verdict,
                ),
    {
        let provided: Option<Result<u16, String>> = match self.machine_id {
            Some(mut source) => Some(source.machine_id()),
            None => None,
        };
        let ghost asked = provided;
        match resolve_machine_id(provided, &self.interfaces) {
            Ok(id) => {
                let verdict: Option<bool> = match self.check_machine_id {
                    Some(checker) => Some(checker.check_machine_id(id)),
                    None => None,
                };
                let checked = check_machine_id(id, verdict);
                assert(answers_fit(self@, asked, verdict) && checked == spec_machine_id(
                    self@,
                    asked,
                    verdict,
                ));
                checked
            },
            Err(e) => {
                assert(answers_fit(self@, asked, None) && Err::<u16, Error>(e) == spec_machine_id(
                    self@,
                    asked,
                    None,
                ));
                Err(e)
            },
        }
    }

    /// Decides the start time, in time units, and the machine id of a
    /// generator: first the start time, for which it reads the wall clock,
    /// then the machine id, with `get_and_check_machine_id`. The first error
    /// ends it.
    pub fn resolve(self) -> (resolved: Result<(i64, u16), Error>)
        ensures
            resolved_of(self@, resolved),
            resolved matches Ok((start_time, _)) ==> -MAX_TIME_UNITS <= start_time
                <= MAX_TIME_UNITS,
    {
        let ghost settings = self@;
        let now = Timestamp::now();
        let start_time = match self.get_start_time_at(now) {
            Ok(start_time) => start_time,
            Err(e) => {
                proof {
                    let provided: Option<Result<u16, String>> = if settings.has_machine_id {
                        Some(Ok(0u16))
                    } else {
                        None
                    };
                    let verdict: Option<bool> = if settings.has_check_machine_id
                        && spec_resolve_machine_id(provided, settings.interfaces) is Ok {
                        Some(true)
                    } else {
                        None
                    };
                    assert(answers_fit(settings, provided, verdict) && Err::<(i64, u16), Error>(e)
                        == spec_resolve(settings, now.nanos as int, provided, verdict));
                }
                return Err(e);
            },
        };
        let checked = self.get_and_check_machine_id();
        let ghost outcome = checked;
        proof {
            let (provided, verdict) = choose|
                provided: Option<Result<u16, String>>,
                verdict: Option<bool>,
            |
                answers_fit(settings, provided, verdict) && outcome == spec_machine_id(
                    settings,
                    provided,
                    verdict,
                );
            assert(answers_fit(settings, provided, verdict) && (match outcome {
                Ok(machine_id) => Ok((start_time, machine_id)),
                Err(e) => Err(e),
            }) == spec_resolve(settings, now.nanos as int, provided, verdict));
        }
        match checked {
            Ok(machine_id) => Ok((start_time, machine_id)),
            Err(e) => Err(e),
        }
    }

    /// Makes a generator that fails once its time has run out.
    pub fn into_sonyflake(self) -> (flake: Result<SonyFlake, Error>)
        ensures
            SonyFlake::made_of(self@, flake),
    {
        SonyFlake::new(self)
    }

    /// Makes a generator that starts over once its time has run out.
    pub fn into_infallible_sonyflake(self) -> (flake: Result<InfallibleSonyFlake, Error>)
        ensures
            InfallibleSonyFlake::made_of(self@, flake),
    {
        InfallibleSonyFlake::new(self)
    }
}

} // verus!
