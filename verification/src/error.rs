//! What can go wrong when a generator is built or asked for an id.

use crate::clock::Timestamp;
use crate::text::append_decimal;
use crate::text::append_signed_decimal;
use crate::text::decimal;
use crate::text::signed_decimal;
use vstd::prelude::*;
use vstd::string::StringExecFns;

verus! {

/// The error type of this crate.
#[derive(Clone, Debug, PartialEq, Eq)]
pub enum Error {
    /// The start time, which the variant holds, is ahead of the current time.
    StartTimeAheadOfCurrentTime(Timestamp),
    /// The source of machine ids failed; the variant holds what it gave as
    /// the cause.
    MachineIdFailed(String),
    /// The checker of machine ids turned down the machine id that the
    /// variant holds.
    InvalidMachineID(u16),
    /// The elapsed time no longer fits the time part of an id.
    TimeOverflow,
    /// No machine id source was set, and among the host's interfaces there
    /// is no private IPv4 address to take a machine id from.
    NoPrivateIPv4Address,
}

impl Error {
    /// The text of the error. A start time is shown by its nanoseconds
    /// since the Unix epoch.
    pub open spec fn text(self) -> Seq<char> {
        match self {
            Error::StartTimeAheadOfCurrentTime(time) => "start_time "@ + signed_decimal(
                time.nanos as int,
            ) + " is ahead of current time"@,
            Error::MachineIdFailed(cause) => "cannot get a machine id: "@ + cause@,
            Error::InvalidMachineID(id) => "invalid machine id: "@ + decimal(id as nat),
            Error::TimeOverflow => "over the sonyflake time limit"@,
            Error::NoPrivateIPv4Address => "no private IPv4 address"@,
        }
    }

    /// The text of the error, for a reader.
    pub fn to_string(&self) -> (text: String)
        ensures
            text@ == self.text(),
    {
        match self {
            Error::StartTimeAheadOfCurrentTime(time) => {
                let mut text = String::from_str("start_time ");
                append_signed_decimal(&mut text, time.nanos);
                text.append(" is ahead of current time");
                text
            },
            Error::MachineIdFailed(cause) => {
                let mut text = String::from_str("cannot get a machine id: ");
                text.append(cause.as_str());
                text
            },
            Error::InvalidMachineID(id) => {
                let mut text = String::from_str("invalid machine id: ");
                append_decimal(&mut text, *id as u64);
                text
            },
            Error::TimeOverflow => String::from_str("over the sonyflake time limit"),
            Error::NoPrivateIPv4Address => String::from_str("no private IPv4 address"),
        }
    }
}

} // verus!
