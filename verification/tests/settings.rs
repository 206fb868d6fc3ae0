use chrono::Utc;
use infallible_sonyflake::settings::check_machine_id;
use infallible_sonyflake::settings::resolve_machine_id;
use infallible_sonyflake::Error;
use infallible_sonyflake::IDParts;
use infallible_sonyflake::InfallibleSonyFlake;
use infallible_sonyflake::Interface;
use infallible_sonyflake::IpAddress;
use infallible_sonyflake::MachineID;
use infallible_sonyflake::MachineIDChecker;
use infallible_sonyflake::Settings;
use infallible_sonyflake::SonyFlake;
use infallible_sonyflake::Step;
use infallible_sonyflake::Timestamp;
use std::cell::Cell;
use std::rc::Rc;

fn at(nanos: i64) -> Timestamp {
    Timestamp { nanos }
}

fn wall_clock() -> Timestamp {
    at(Utc::now().timestamp_nanos_opt().unwrap())
}

fn host(last_octet: u8) -> Vec<Interface> {
    vec![Interface { up: true, loopback: false, ips: vec![IpAddress::V4([192, 168, 3, last_octet])] }]
}

/// A source that hands out one machine id and counts how often it is asked.
struct Fixed {
    id: u16,
    asked: Rc<Cell<u32>>,
}

impl MachineID for Fixed {
    fn machine_id(&mut self) -> Result<u16, String> {
        self.asked.set(self.asked.get() + 1);
        Ok(self.id)
    }
}

fn fixed(id: u16) -> Box<Fixed> {
    Box::new(Fixed { id, asked: Rc::new(Cell::new(0)) })
}

struct Broken;

impl MachineID for Broken {
    fn machine_id(&mut self) -> Result<u16, String> {
        Err(String::from("the registry is down"))
    }
}

/// A checker that accepts odd machine ids and notes what it was asked.
struct OddOnly {
    seen: Rc<Cell<Option<u16>>>,
}

impl MachineIDChecker for OddOnly {
    fn check_machine_id(&self, id: u16) -> bool {
        self.seen.set(Some(id));
        id % 2 == 1
    }
}

fn odd_only() -> Box<OddOnly> {
    Box::new(OddOnly { seen: Rc::new(Cell::new(None)) })
}

#[test]
fn a_start_time_in_the_past_counts() {
    let settings = Settings::new().set_start_time(at(25_000_000));
    assert_eq!(settings.get_start_time_at(at(25_000_001)), Ok(2));
    assert_eq!(settings.get_start_time_at(at(i64::MAX)), Ok(2));
    assert_eq!(settings.get_start_time(), Ok(2));
}

#[test]
fn a_start_time_that_is_now_counts() {
    let settings = Settings::new().set_start_time(at(25_000_000));
    assert_eq!(settings.get_start_time_at(at(25_000_000)), Ok(2));
}

#[test]
fn a_start_time_ahead_of_the_clock_is_an_error() {
    let settings = Settings::new().set_start_time(at(25_000_001));
    assert_eq!(
        settings.get_start_time_at(at(25_000_000)),
        Err(Error::StartTimeAheadOfCurrentTime(at(25_000_001)))
    );
    assert_eq!(
        settings.get_start_time_at(at(-1)),
        Err(Error::StartTimeAheadOfCurrentTime(at(25_000_001)))
    );
}

#[test]
fn without_a_start_time_the_default_counts() {
    let settings = Settings::new();
    assert_eq!(settings.get_start_time_at(at(0)), Ok(162_820_800_000));
    assert_eq!(settings.get_start_time_at(at(i64::MIN)), Ok(162_820_800_000));
    assert_eq!(settings.get_start_time_at(wall_clock()), Ok(162_820_800_000));
    assert_eq!(settings.get_start_time(), Ok(162_820_800_000));
    assert_eq!(Settings::default().get_start_time(), Ok(162_820_800_000));
}

#[test]
fn the_last_start_time_that_was_set_counts() {
    let settings = Settings::new().set_start_time(at(25_000_000)).set_start_time(at(-35_000_000));
    assert_eq!(settings.get_start_time_at(at(0)), Ok(-3));
}

#[test]
fn no_generator_with_a_start_time_in_the_future() {
    let in_an_hour = at(wall_clock().nanos + 3_600_000_000_000);
    let made = Settings::new().set_start_time(in_an_hour).set_machine_id(fixed(1)).into_sonyflake();
    assert_eq!(made.unwrap_err(), Error::StartTimeAheadOfCurrentTime(in_an_hour));
    let made = InfallibleSonyFlake::new(
        Settings::new().set_start_time(in_an_hour).set_machine_id(fixed(1)),
    );
    assert_eq!(made.unwrap_err(), Error::StartTimeAheadOfCurrentTime(in_an_hour));
}

#[test]
fn the_start_time_is_decided_before_the_machine_id() {
    let in_an_hour = at(wall_clock().nanos + 3_600_000_000_000);
    let asked = Rc::new(Cell::new(0));
    let seen = Rc::new(Cell::new(None));
    let made = Settings::new()
        .set_start_time(in_an_hour)
        .set_machine_id(Box::new(Fixed { id: 4, asked: asked.clone() }))
        .set_check_machine_id(Box::new(OddOnly { seen: seen.clone() }))
        .into_sonyflake();
    assert_eq!(made.unwrap_err(), Error::StartTimeAheadOfCurrentTime(in_an_hour));
    assert_eq!(asked.get(), 0);
    assert_eq!(seen.get(), None);
}

#[test]
fn a_source_that_fails_makes_no_generator() {
    let made = Settings::new().set_machine_id(Box::new(Broken)).into_sonyflake();
    assert_eq!(made.unwrap_err(), Error::MachineIdFailed(String::from("the registry is down")));
    let made = Settings::new()
        .set_machine_id(Box::new(Broken))
        .set_interfaces(host(7))
        .into_infallible_sonyflake();
    assert_eq!(made.unwrap_err(), Error::MachineIdFailed(String::from("the registry is down")));
}

#[test]
fn a_source_that_fails_is_not_checked() {
    let seen = Rc::new(Cell::new(None));
    let checked = Settings::new()
        .set_machine_id(Box::new(Broken))
        .set_check_machine_id(Box::new(OddOnly { seen: seen.clone() }))
        .get_and_check_machine_id();
    assert_eq!(checked, Err(Error::MachineIdFailed(String::from("the registry is down"))));
    assert_eq!(seen.get(), None);
}

#[test]
fn the_source_is_asked_once() {
    let asked = Rc::new(Cell::new(0));
    let flake = Settings::new()
        .set_machine_id(Box::new(Fixed { id: 9, asked: asked.clone() }))
        .into_sonyflake()
        .unwrap();
    assert_eq!(asked.get(), 1);
    assert_eq!(flake.machine_id(), 9);
}

#[test]
fn the_checker_turns_down_machine_id_4() {
    let made = Settings::new().set_machine_id(fixed(4)).set_check_machine_id(odd_only()).into_sonyflake();
    assert_eq!(made.unwrap_err(), Error::InvalidMachineID(4));
    let made = Settings::new()
        .set_machine_id(fixed(4))
        .set_check_machine_id(odd_only())
        .into_infallible_sonyflake();
    assert_eq!(made.unwrap_err(), Error::InvalidMachineID(4));
}

#[test]
fn the_checker_accepts_machine_id_1() {
    let mut flake = Settings::new()
        .set_machine_id(fixed(1))
        .set_check_machine_id(odd_only())
        .into_sonyflake()
        .unwrap();
    assert_eq!(flake.machine_id(), 1);
    let step = flake.next_id().unwrap();
    let id = match step {
        Step::Id(id) => id,
        Step::Wait(_) => panic!("a new generator is not ahead of the clock"),
    };
    assert_eq!(IDParts::decompose(id).get_machine_id(), 1);

    let mut flake = Settings::new()
        .set_machine_id(fixed(1))
        .set_check_machine_id(odd_only())
        .into_infallible_sonyflake()
        .unwrap();
    let id = match flake.next_id() {
        Step::Id(id) => id,
        Step::Wait(_) => panic!("a new generator is not ahead of the clock"),
    };
    assert_eq!(IDParts::decompose(id).get_machine_id(), 1);
}

#[test]
fn the_checker_is_asked_about_the_id_of_the_source() {
    let seen = Rc::new(Cell::new(None));
    let checked = Settings::new()
        .set_machine_id(fixed(513))
        .set_check_machine_id(Box::new(OddOnly { seen: seen.clone() }))
        .get_and_check_machine_id();
    assert_eq!(checked, Ok(513));
    assert_eq!(seen.get(), Some(513));
}

#[test]
fn without_a_source_the_interfaces_give_the_machine_id() {
    let flake = Settings::new().set_interfaces(host(7)).into_sonyflake().unwrap();
    assert_eq!(flake.machine_id(), 0x0307);
    assert_eq!(flake.start_time(), 162_820_800_000);
    let flake = SonyFlake::new(Settings::new().set_interfaces(host(7))).unwrap();
    assert_eq!(flake.machine_id(), 0x0307);
    let flake = Settings::new().set_interfaces(host(8)).into_infallible_sonyflake().unwrap();
    assert_eq!(flake.machine_id(), 0x0308);
    assert_eq!(flake.start_time(), 162_820_800_000);
}

#[test]
fn a_source_goes_before_the_interfaces() {
    let flake = Settings::new().set_interfaces(host(7)).set_machine_id(fixed(12)).into_sonyflake().unwrap();
    assert_eq!(flake.machine_id(), 12);
}

#[test]
fn the_checker_judges_the_id_of_the_interfaces_too() {
    let seen = Rc::new(Cell::new(None));
    let checked = Settings::new()
        .set_interfaces(host(7))
        .set_check_machine_id(Box::new(OddOnly { seen: seen.clone() }))
        .get_and_check_machine_id();
    assert_eq!(checked, Ok(0x0307));
    assert_eq!(seen.get(), Some(0x0307));

    let made = Settings::new().set_interfaces(host(8)).set_check_machine_id(odd_only()).into_sonyflake();
    assert_eq!(made.unwrap_err(), Error::InvalidMachineID(0x0308));
}

#[test]
fn without_a_source_and_a_private_address_there_is_no_machine_id() {
    assert_eq!(Settings::new().into_sonyflake().unwrap_err(), Error::NoPrivateIPv4Address);
    assert_eq!(Settings::default().into_infallible_sonyflake().unwrap_err(), Error::NoPrivateIPv4Address);
    assert_eq!(SonyFlake::new(Settings::new()).unwrap_err(), Error::NoPrivateIPv4Address);
    let public = vec![Interface { up: true, loopback: false, ips: vec![IpAddress::V4([192, 0, 2, 2])] }];
    assert_eq!(
        Settings::new().set_interfaces(public).set_check_machine_id(odd_only()).into_sonyflake().unwrap_err(),
        Error::NoPrivateIPv4Address
    );
}

#[test]
fn a_new_generator_has_handed_out_nothing() {
    let flake = Settings::new().set_start_time(at(25_000_000)).set_machine_id(fixed(3)).into_sonyflake().unwrap();
    assert_eq!(flake.start_time(), 2);
    assert_eq!(flake.machine_id(), 3);
    assert_eq!(flake.elapsed_time(), 0);
    assert_eq!(flake.sequence(), 0);
    assert!(flake.can_advance());
    let flake = Settings::new()
        .set_start_time(at(-25_000_000))
        .set_machine_id(fixed(65535))
        .into_infallible_sonyflake()
        .unwrap();
    assert_eq!(flake.start_time(), -2);
    assert_eq!(flake.machine_id(), 65535);
    assert_eq!(flake.elapsed_time(), 0);
    assert_eq!(flake.sequence(), 0);
}

#[test]
fn resolve_machine_id_decides_from_the_answer_of_the_source() {
    assert_eq!(resolve_machine_id(Some(Ok(5)), &host(7)), Ok(5));
    assert_eq!(
        resolve_machine_id(Some(Err(String::from("no"))), &host(7)),
        Err(Error::MachineIdFailed(String::from("no")))
    );
    assert_eq!(resolve_machine_id(None, &host(7)), Ok(0x0307));
    assert_eq!(resolve_machine_id(None, &vec![]), Err(Error::NoPrivateIPv4Address));
}

#[test]
fn check_machine_id_decides_from_the_verdict() {
    assert_eq!(check_machine_id(4, Some(false)), Err(Error::InvalidMachineID(4)));
    assert_eq!(check_machine_id(4, Some(true)), Ok(4));
    assert_eq!(check_machine_id(4, None), Ok(4));
    assert_eq!(check_machine_id(0, Some(false)), Err(Error::InvalidMachineID(0)));
}

#[test]
fn the_texts_of_the_errors() {
    assert_eq!(Error::InvalidMachineID(2).to_string(), "invalid machine id: 2");
    assert_eq!(Error::InvalidMachineID(0).to_string(), "invalid machine id: 0");
    assert_eq!(Error::InvalidMachineID(65535).to_string(), "invalid machine id: 65535");
    assert_eq!(Error::InvalidMachineID(1090).to_string(), "invalid machine id: 1090");
    assert_eq!(Error::TimeOverflow.to_string(), "over the sonyflake time limit");
    assert_eq!(Error::NoPrivateIPv4Address.to_string(), "no private IPv4 address");
    assert_eq!(
        Error::MachineIdFailed(String::from("the registry is down")).to_string(),
        "cannot get a machine id: the registry is down"
    );
    assert_eq!(Error::MachineIdFailed(String::new()).to_string(), "cannot get a machine id: ");
    assert_eq!(
        Error::StartTimeAheadOfCurrentTime(at(1_628_208_000_000_000_000)).to_string(),
        "start_time 1628208000000000000 is ahead of current time"
    );
    assert_eq!(
        Error::StartTimeAheadOfCurrentTime(at(-7)).to_string(),
        "start_time -7 is ahead of current time"
    );
    assert_eq!(
        Error::StartTimeAheadOfCurrentTime(at(i64::MIN)).to_string(),
        "start_time -9223372036854775808 is ahead of current time"
    );
    assert_eq!(
        Error::StartTimeAheadOfCurrentTime(at(i64::MAX)).to_string(),
        "start_time 9223372036854775807 is ahead of current time"
    );
    assert_eq!(Error::StartTimeAheadOfCurrentTime(at(0)).to_string(), "start_time 0 is ahead of current time");
}

#[test]
fn resolve_gives_the_start_time_and_the_machine_id() {
    assert_eq!(Settings::new().set_start_time(at(25_000_000)).set_machine_id(fixed(3)).resolve(), Ok((2, 3)));
    assert_eq!(Settings::new().set_interfaces(host(7)).resolve(), Ok((162_820_800_000, 0x0307)));
    assert_eq!(
        Settings::new().set_machine_id(fixed(5)).set_check_machine_id(odd_only()).resolve(),
        Ok((162_820_800_000, 5))
    );
}

#[test]
fn resolve_ends_with_the_first_error() {
    let in_an_hour = at(wall_clock().nanos + 3_600_000_000_000);
    assert_eq!(
        Settings::new().set_start_time(in_an_hour).set_machine_id(Box::new(Broken)).resolve(),
        Err(Error::StartTimeAheadOfCurrentTime(in_an_hour))
    );
    assert_eq!(
        Settings::new().set_start_time(in_an_hour).resolve(),
        Err(Error::StartTimeAheadOfCurrentTime(in_an_hour))
    );
    assert_eq!(
        Settings::new().set_machine_id(Box::new(Broken)).set_check_machine_id(odd_only()).resolve(),
        Err(Error::MachineIdFailed(String::from("the registry is down")))
    );
    assert_eq!(
        Settings::new().set_machine_id(fixed(6)).set_check_machine_id(odd_only()).resolve(),
        Err(Error::InvalidMachineID(6))
    );
    assert_eq!(Settings::new().resolve(), Err(Error::NoPrivateIPv4Address));
}
