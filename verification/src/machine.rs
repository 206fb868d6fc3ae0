//! The machine id that a host has when nobody names one: the lower 16 bits
//! of its private IPv4 address.
//!
//! This library does not ask the host for its interfaces. Whoever does
//! hands them over as a list of `Interface` values, in the host's order.

use crate::error::Error;
use vstd::prelude::*;

verus! {

/// An address of an interface, by its octets.
#[derive(Copy, Clone, Debug, PartialEq, Eq)]
pub enum IpAddress {
    V4([u8; 4]),
    V6([u8; 16]),
}

/// What the library reads of one network interface of the host.
#[derive(Clone, Debug, PartialEq, Eq)]
pub struct Interface {
    /// Whether the interface is up.
    pub up: bool,
    /// Whether it is a loopback interface.
    pub loopback: bool,
    /// Its addresses, in the host's order.
    pub ips: Vec<IpAddress>,
}

/// Whether an IPv4 address lies in one of the private ranges: 10.0.0.0/8,
/// 172.16.0.0/12 or 192.168.0.0/16.
pub open spec fn spec_is_private_ipv4(ip: [u8; 4]) -> bool {
    ||| ip[0] == 10
    ||| (ip[0] == 172 && 16 <= ip[1] < 32)
    ||| (ip[0] == 192 && ip[1] == 168)
}

/// Whether address `j` of interface `i` can give the machine id: the
/// interface is up and no loopback, the address is a private IPv4 address.
pub open spec fn is_candidate(interfaces: Seq<Interface>, i: int, j: int) -> bool {
    &&& 0 <= i < interfaces.len()
    &&& interfaces[i].up
    &&& !interfaces[i].loopback
    &&& 0 <= j < interfaces[i].ips@.len()
    &&& interfaces[i].ips@[j] matches IpAddress::V4(ip)
    &&& spec_is_private_ipv4(ip)
}

/// Whether address `l` of interface `k` stands before address `j` of
/// interface `i` in the list.
pub open spec fn comes_before(k: int, l: int, i: int, j: int) -> bool {
    k < i || (k == i && l < j)
}

/// Whether address `j` of interface `i` is the first that can give the
/// machine id.
pub open spec fn is_first_candidate(interfaces: Seq<Interface>, i: int, j: int) -> bool {
    &&& is_candidate(interfaces, i, j)
    &&& forall|k: int, l: int|
        comes_before(k, l, i, j) ==> !#[trigger] is_candidate(interfaces, k, l)
}

/// The host's private IPv4 address: the first private IPv4 address of the
/// first interface, up and no loopback, that has one.
pub open spec fn spec_private_ipv4(interfaces: Seq<Interface>) -> Option<[u8; 4]> {
    if exists|i: int, j: int| is_candidate(interfaces, i, j) {
        let (i, j) = choose|i: int, j: int| is_first_candidate(interfaces, i, j);
        Some(interfaces[i].ips@[j]->V4_0)
    } else {
        None
    }
}

/// The lower 16 bits of an IPv4 address.
pub open spec fn lower_16_bits(ip: [u8; 4]) -> int {
    ip[2] * 256 + ip[3]
}

/// The machine id that the host's interfaces give, or the error that says
/// that they give none.
pub open spec fn spec_lower_16_bit_private_ip(interfaces: Seq<Interface>) -> Result<u16, Error> {
    match spec_private_ipv4(interfaces) {
        Some(ip) => Ok(lower_16_bits(ip) as u16),
        None => Err(Error::NoPrivateIPv4Address),
    }
}

/// Whether an IPv4 address, given by its octets, is private.
pub fn is_private_ipv4(ip: [u8; 4]) -> (private: bool)
    ensures
        private == spec_is_private_ipv4(ip),
{
    ip[0] == 10 || ip[0] == 172 && (ip[1] >= 16 && ip[1] < 32) || ip[0] == 192 && ip[1] == 168
}

/// The first candidate is the host's private address: there is no other first
/// candidate.
proof fn lemma_first_candidate_is_unique(interfaces: Seq<Interface>, i: int, j: int)
    requires
        is_first_candidate(interfaces, i, j),
    ensures
        spec_private_ipv4(interfaces) == Some(interfaces[i].ips@[j]->V4_0),
{
}

/// The first private IPv4 address of an interface that is up and no
/// loopback; `None` if no interface has one.
pub fn private_ipv4(interfaces: &Vec<Interface>) -> (found: Option<[u8; 4]>)
    ensures
        found == spec_private_ipv4(interfaces@),
        match found {
            Some(ip) => exists|i: int, j: int|
                is_first_candidate(interfaces@, i, j) && interfaces@[i].ips@[j] == IpAddress::V4(
                    ip,
                ),
            None => forall|i: int, j: int| !is_candidate(interfaces@, i, j),
        },
{
    let mut i: usize = 0;
    while i < interfaces.len()
        invariant
            i <= interfaces.len(),
            forall|k: int, l: int| k < i ==> !#[trigger] is_candidate(interfaces@, k, l),
        decreases interfaces.len() - i,
    {
        let interface = &interfaces[i];
        if interface.up && !interface.loopback {
            let mut j: usize = 0;
            while j < interface.ips.len()
                invariant
                    i < interfaces.len(),
                    *interface == interfaces@[i as int],
                    interface.up && !interface.loopback,
                    j <= interface.ips.len(),
                    forall|k: int, l: int|
                        comes_before(k, l, i as int, j as int) ==> !#[trigger] is_candidate(
                            interfaces@,
                            k,
                            l,
                        ),
                decreases interface.ips.len() - j,
            {
                match interface.ips[j] {
                    IpAddress::V4(ip) => {
                        if is_private_ipv4(ip) {
                            proof {
                                lemma_first_candidate_is_unique(interfaces@, i as int, j as int);
                            }
                            return Some(ip);
                        }
                    },
                    IpAddress::V6(_) => {},
                }
                j += 1;
            }
        }
        i += 1;
    }
    None
}

/// The machine id of a host with these interfaces: the lower 16 bits of its
/// private IPv4 address.
pub fn lower_16_bit_private_ip(interfaces: &Vec<Interface>) -> (machine_id: Result<u16, Error>)
    ensures
        machine_id == spec_lower_16_bit_private_ip(interfaces@),
{
    match private_ipv4(interfaces) {
        Some(ip) => {
            let high: u16 = ip[2] as u16;
            assert(high << 8 == high * 256) by (bit_vector)
                requires
                    high < 256,
            ;
            Ok((high << 8) + (ip[3] as u16))
        },
        None => Err(Error::NoPrivateIPv4Address),
    }
}

} // verus!
