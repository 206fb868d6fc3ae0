//! Packing an id from its three parts, and taking an id apart again.
//!
//! An id is a 64-bit word. From the top: one bit that is always zero in an id
//! of this library, 39 bits of elapsed time in units of 10 ms, 8 bits of
//! sequence number and 16 bits of machine id.

use vstd::prelude::*;

verus! {

/// Bit length of the time part.
pub const BIT_LEN_TIME: u64 = 39;

/// Bit length of the sequence number.
pub const BIT_LEN_SEQUENCE: u64 = 8;

/// Bit length of the machine id.
pub const BIT_LEN_MACHINE_ID: u64 = 16;

/// The first elapsed time that no longer fits the time part: 2^39.
pub const TIME_LIMIT: i64 = 0x80_0000_0000;

/// The number of sequence numbers in one time unit: 2^8.
pub const SEQUENCE_LIMIT: u16 = 0x100;

/// The weight of the sequence number inside an id: 2^16.
pub open spec fn sequence_weight() -> int {
    0x1_0000
}

/// The weight of the time part inside an id: 2^24.
pub open spec fn time_weight() -> int {
    0x100_0000
}

/// The id that the three parts make, as a number. It is meant for parts in
/// range: `0 <= time < 2^39`, `0 <= sequence < 2^8`, `0 <= machine_id < 2^16`.
pub open spec fn pack(time: int, sequence: int, machine_id: int) -> int {
    time * time_weight() + sequence * sequence_weight() + machine_id
}

/// Whether the three parts are in the range that an id has room for.
pub open spec fn parts_in_range(time: int, sequence: int, machine_id: int) -> bool {
    &&& 0 <= time < TIME_LIMIT
    &&& 0 <= sequence < SEQUENCE_LIMIT
    &&& 0 <= machine_id < 0x1_0000
}

/// What `to_id` computes on every input, in range or not: the three parts
/// shifted to their places and or-ed together.
pub open spec fn spec_to_id(elapsed_time: i64, seq: u16, machine_id: u16) -> u64 {
    ((elapsed_time as u64) << 24) | ((seq as u64) << 16) | (machine_id as u64)
}

/// The mathematical content of an `IDParts`.
pub struct Parts {
    pub id: nat,
    pub msb: nat,
    pub time: nat,
    pub sequence: nat,
    pub machine_id: nat,
}

/// The parts of any 64-bit word, read as an id.
///
/// `time` is everything above the sequence number, so for a word whose top
/// bit is set it is 2^39 or more.
pub open spec fn parts_of(id: u64) -> Parts {
    Parts {
        id: id as nat,
        msb: (id as nat) / 0x8000_0000_0000_0000,
        time: (id as nat) / 0x100_0000,
        sequence: ((id as nat) / 0x1_0000) % 0x100,
        machine_id: (id as nat) % 0x1_0000,
    }
}

/// `IDParts` contains the bit parts of an id.
#[derive(Copy, Clone, Eq, PartialEq, Debug)]
pub struct IDParts {
    id: u64,
    msb: u64,
    time: u64,
    sequence: u64,
    machine_id: u64,
}

impl View for IDParts {
    type V = Parts;

    closed spec fn view(&self) -> Parts {
        Parts {
            id: self.id as nat,
            msb: self.msb as nat,
            time: self.time as nat,
            sequence: self.sequence as nat,
            machine_id: self.machine_id as nat,
        }
    }
}

impl IDParts {
    /// `decompose` returns the parts of an id.
    pub fn decompose(id: u64) -> (parts: Self)
        ensures
            parts@ == parts_of(id),
    {
        decompose(id)
    }

    /// `get_id` returns the id that was taken apart.
    pub fn get_id(&self) -> (id: u64)
        ensures
            id == self@.id,
    {
        self.id
    }

    /// `get_msb` returns the top bit of the id.
    pub fn get_msb(&self) -> (msb: u64)
        ensures
            msb == self@.msb,
    {
        self.msb
    }

    /// `get_time` returns the elapsed time of the id, in units of 10 ms.
    pub fn get_time(&self) -> (time: u64)
        ensures
            time == self@.time,
    {
        self.time
    }

    /// `get_sequence` returns the sequence number of the id.
    pub fn get_sequence(&self) -> (sequence: u64)
        ensures
            sequence == self@.sequence,
    {
        self.sequence
    }

    /// `get_machine_id` returns the machine id of the id.
    pub fn get_machine_id(&self) -> (machine_id: u64)
        ensures
            machine_id == self@.machine_id,
    {
        self.machine_id
    }
}

/// Packs an id. The ranges are not checked: whoever calls this has made sure
/// that the time is below 2^39. For parts in range the id is `pack` of them.
pub fn to_id(elapsed_time: i64, seq: u16, machine_id: u16) -> (id: u64)
    ensures
        id == spec_to_id(elapsed_time, seq, machine_id),
        parts_in_range(elapsed_time as int, seq as int, machine_id as int) ==> id == pack(
            elapsed_time as int,
            seq as int,
            machine_id as int,
        ),
{
    proof {
        lemma_to_id_is_pack(elapsed_time, seq, machine_id);
    }
    (elapsed_time as u64) << 24 | (seq as u64) << 16 | (machine_id as u64)
}

/// `decompose` returns the parts of an id. It accepts every 64-bit word, also
/// one that no generator made: such a word may have its top bit set.
pub fn decompose(id: u64) -> (parts: IDParts)
    ensures
        parts@ == parts_of(id),
{
    let mask_seq: u64 = 0xFF_0000;
    let mask_machine_id: u64 = 0xFFFF;

    let msb: u64 = id >> 63;
    let time: u64 = id >> 24;

    let seq: u64 = (id & mask_seq) >> 16;
    let machine_id: u64 = id & mask_machine_id;
    proof {
        lemma_masks_are_arithmetic(id);
    }
    IDParts { id, msb, time, sequence: seq, machine_id }
}

/// The shifts and masks of `decompose`, as divisions and remainders.
proof fn lemma_masks_are_arithmetic(id: u64)
    ensures
        id >> 63 == id / 0x8000_0000_0000_0000,
        id >> 24 == id / 0x100_0000,
        (id & 0xFF_0000) >> 16 == (id / 0x1_0000) % 0x100,
        id & 0xFFFF == id % 0x1_0000,
{
    assert(id >> 63 == id / 0x8000_0000_0000_0000) by (bit_vector);
    assert(id >> 24 == id / 0x100_0000) by (bit_vector);
    assert((id & 0xFF_0000) >> 16 == (id / 0x1_0000) % 0x100) by (bit_vector);
    assert(id & 0xFFFF == id % 0x1_0000) by (bit_vector);
}

/// For parts in range, shifting and or-ing is the same as `pack`.
pub proof fn lemma_to_id_is_pack(elapsed_time: i64, seq: u16, machine_id: u16)
    ensures
        parts_in_range(elapsed_time as int, seq as int, machine_id as int) ==> spec_to_id(
            elapsed_time,
            seq,
            machine_id,
        ) == pack(elapsed_time as int, seq as int, machine_id as int),
{
    if parts_in_range(elapsed_time as int, seq as int, machine_id as int) {
        let t: u64 = elapsed_time as u64;
        let s: u64 = seq as u64;
        let m: u64 = machine_id as u64;
        assert((t << 24) | (s << 16) | m == t * 0x100_0000 + s * 0x1_0000 + m) by (bit_vector)
            requires
                t < 0x80_0000_0000,
                s < 0x100,
                m < 0x1_0000,
        ;
    }
}

/// Round trip: taking apart the id packed from parts in range gives those
/// parts back, with the top bit zero.
pub proof fn lemma_decompose_to_id(elapsed_time: i64, seq: u16, machine_id: u16)
    requires
        parts_in_range(elapsed_time as int, seq as int, machine_id as int),
    ensures
        parts_of(spec_to_id(elapsed_time, seq, machine_id)) == (Parts {
            id: pack(elapsed_time as int, seq as int, machine_id as int) as nat,
            msb: 0,
            time: elapsed_time as nat,
            sequence: seq as nat,
            machine_id: machine_id as nat,
        }),
{
    lemma_to_id_is_pack(elapsed_time, seq, machine_id);
    let t: u64 = elapsed_time as u64;
    let s: u64 = seq as u64;
    let m: u64 = machine_id as u64;
    let id: u64 = spec_to_id(elapsed_time, seq, machine_id);
    assert({
        &&& id / 0x8000_0000_0000_0000 == 0
        &&& id / 0x100_0000 == t
        &&& (id / 0x1_0000) % 0x100 == s
        &&& id % 0x1_0000 == m
    }) by (bit_vector)
        requires
            id == (t << 24) | (s << 16) | m,
            t < 0x80_0000_0000,
            s < 0x100,
            m < 0x1_0000,
    ;
}

/// The other way round: every word is `pack` of its own parts, and a word
/// whose top bit is zero has its parts in range. So packing the parts of
/// such a word gives the word back.
pub proof fn lemma_to_id_decompose(id: u64)
    ensures
        id == pack(
            parts_of(id).time as int,
            parts_of(id).sequence as int,
            parts_of(id).machine_id as int,
        ),
        parts_of(id).msb <= 1,
        parts_of(id).msb == 0 <==> parts_in_range(
            parts_of(id).time as int,
            parts_of(id).sequence as int,
            parts_of(id).machine_id as int,
        ),
{
    assert(id == (id / 0x100_0000) * 0x100_0000 + ((id / 0x1_0000) % 0x100) * 0x1_0000 + id
        % 0x1_0000) by (bit_vector);
    assert(id / 0x8000_0000_0000_0000 <= 1) by (bit_vector);
    assert(id / 0x8000_0000_0000_0000 == 0 <==> id / 0x100_0000 < 0x80_0000_0000)
        by (bit_vector);
}

/// Ids of one machine are ordered as the pairs of time and sequence number
/// are: first by time, then by sequence number.
pub proof fn lemma_pack_is_ordered(
    time_a: int,
    sequence_a: int,
    time_b: int,
    sequence_b: int,
    machine_id: int,
)
    requires
        parts_in_range(time_a, sequence_a, machine_id),
        parts_in_range(time_b, sequence_b, machine_id),
    ensures
        pack(time_a, sequence_a, machine_id) < pack(time_b, sequence_b, machine_id) <==> (time_a
            < time_b || (time_a == time_b && sequence_a < sequence_b)),
{
}

/// Ids are unique by their parts: two triples in range that differ anywhere,
/// in the machine id for one, never pack to the same id.
pub proof fn lemma_pack_is_injective(
    time_a: int,
    sequence_a: int,
    machine_a: int,
    time_b: int,
    sequence_b: int,
    machine_b: int,
)
    requires
        parts_in_range(time_a, sequence_a, machine_a),
        parts_in_range(time_b, sequence_b, machine_b),
        pack(time_a, sequence_a, machine_a) == pack(time_b, sequence_b, machine_b),
    ensures
        time_a == time_b,
        sequence_a == sequence_b,
        machine_a == machine_b,
{
}

/// An id packed from parts in range is below 2^63: its top bit is zero.
pub proof fn lemma_pack_is_bounded(time: int, sequence: int, machine_id: int)
    requires
        parts_in_range(time, sequence, machine_id),
    ensures
        0 <= pack(time, sequence, machine_id) < 0x8000_0000_0000_0000,
{
}

} // verus!
