use vstd::prelude::*;
use vstd::string::*;

verus! {

/// Time to live, in seconds, of every inserted address record.
pub const RECORD_TTL: u32 = 300;

/// An IP address held as plain numbers: an IPv4 address as its 32 bits, an
/// IPv6 address as its 128 bits, most significant octet first.
#[derive(Clone, Copy, Debug, PartialEq, Eq, Structural)]
pub enum IpAddress {
    V4(u32),
    V6(u128),
}

/// The type of an address record.
#[derive(Clone, Copy, Debug, PartialEq, Eq, Structural)]
pub enum RecordKind {
    A,
    Aaaa,
}

/// One address record: type A with an IPv4 address, or type AAAA with an
/// IPv6 address.
#[derive(Clone, Copy, Debug, PartialEq, Eq, Structural)]
pub enum AddressRecord {
    A { content: u32 },
    Aaaa { content: u128 },
}

/// The record that points a name at `ip`.
pub open spec fn spec_record_for(ip: IpAddress) -> AddressRecord {
    match ip {
        IpAddress::V4(a) => AddressRecord::A { content: a },
        IpAddress::V6(a) => AddressRecord::Aaaa { content: a },
    }
}

pub open spec fn spec_kind_of(ip: IpAddress) -> RecordKind {
    match ip {
        IpAddress::V4(_) => RecordKind::A,
        IpAddress::V6(_) => RecordKind::Aaaa,
    }
}

/// The fully-qualified name of `name` under `origin`: the two joined by a
/// single dot, with nothing added at the end.
pub open spec fn spec_fqdn(name: Seq<char>, origin: Seq<char>) -> Seq<char> {
    name + seq!['.'] + origin
}

/// The address of the DNS server's port: `<server>:53`.
pub open spec fn spec_endpoint(server: Seq<char>) -> Seq<char> {
    server + seq![':', '5', '3']
}

/// Builds the address record for `ip`: type A for IPv4, AAAA for IPv6, with
/// the same address.
pub fn record_for(ip: IpAddress) -> (r: AddressRecord)
    ensures
        r == spec_record_for(ip),
        ip is V4 ==> r == (AddressRecord::A { content: ip->V4_0 }),
        ip is V6 ==> r == (AddressRecord::Aaaa { content: ip->V6_0 }),
{
    match ip {
        IpAddress::V4(a) => AddressRecord::A { content: a },
        IpAddress::V6(a) => AddressRecord::Aaaa { content: a },
    }
}

/// The record type used for `ip`.
pub fn kind_of(ip: IpAddress) -> (r: RecordKind)
    ensures
        r == spec_kind_of(ip),
{
    match ip {
        IpAddress::V4(_) => RecordKind::A,
        IpAddress::V6(_) => RecordKind::Aaaa,
    }
}

/// The fully-qualified name `<name>.<origin>`.
pub fn fqdn(name: &str, origin: &str) -> (r: String)
    ensures
        r@ == spec_fqdn(name@, origin@),
{
    let mut s = String::from_str(name);
    s.append(".");
    proof {
        reveal_strlit(".");
    }
    s.append(origin);
    s
}

/// The address `<server>:53` toward which the local address is discovered.
pub fn dns_endpoint(server: &str) -> (r: String)
    ensures
        r@ == spec_endpoint(server@),
{
    let mut s = String::from_str(server);
    s.append(":53");
    proof {
        reveal_strlit(":53");
    }
    s
}

} // verus!
