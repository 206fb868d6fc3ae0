//! A distributed unique id generator in the manner of Sonyflake.
//!
//! An id is a 64-bit word made of
//!
//! - 39 bits for time in units of 10 msec,
//! - 8 bits for a sequence number,
//! - 16 bits for a machine id.
//!
//! So a generator lasts for 174 years from its start time, there can be
//! 2^16 machines, and one machine makes 2^8 ids in 10 msec at most.
//!
//! The modules, leaves first: `codec` packs ids and takes them apart;
//! `clock` has the points in time, the time unit and the wall clock; `text`
//! writes numbers; `error` has the errors; `machine` finds the machine id of
//! a host; `settings` decides what a generator is built from; `flake` has
//! the two generators; `history` states what holds of them over any number
//! of calls.

pub mod clock;
pub mod codec;
pub mod error;
pub mod flake;
pub mod history;
pub mod machine;
pub mod settings;
pub mod text;

pub use crate::clock::sleep_time;
pub use crate::clock::sleep_time_at;
pub use crate::clock::to_sonyflake_time;
pub use crate::clock::Pause;
pub use crate::clock::Timestamp;
pub use crate::codec::decompose;
pub use crate::codec::to_id;
pub use crate::codec::IDParts;
pub use crate::error::Error;
pub use crate::flake::InfallibleSonyFlake;
pub use crate::flake::SonyFlake;
pub use crate::flake::Step;
pub use crate::machine::lower_16_bit_private_ip;
pub use crate::machine::Interface;
pub use crate::machine::IpAddress;
pub use crate::settings::MachineID;
pub use crate::settings::MachineIDChecker;
pub use crate::settings::Settings;
