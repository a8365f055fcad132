//! Transport and address family of a candidate.

use vstd::prelude::*;
use crate::error::Error;
use crate::words::to_chars;

verus! {

/// A literal IP address, held as its bits in network order.
#[derive(Clone, Copy, Debug, PartialEq, Eq, Structural, Hash)]
pub enum IpAddress {
    /// An IPv4 address.
    V4(u32),
    /// An IPv6 address.
    V6(u128),
}

impl IpAddress {
    /// Whether this is an IPv4 address.
    pub fn is_ipv4(&self) -> (b: bool)
        ensures
            b == (*self is V4),
    {
        match self {
            IpAddress::V4(_) => true,
            IpAddress::V6(_) => false,
        }
    }

    /// Whether this is an IPv6 address.
    pub fn is_ipv6(&self) -> (b: bool)
        ensures
            b == (*self is V6),
    {
        match self {
            IpAddress::V4(_) => false,
            IpAddress::V6(_) => true,
        }
    }
}

/// An IP address with a port.
#[derive(Clone, Copy, Debug, PartialEq, Eq, Structural, Hash)]
pub struct SocketAddress {
    /// The address.
    pub ip: IpAddress,
    /// The port.
    pub port: u16,
}

impl SocketAddress {
    /// The IPv4 address `0.0.0.0` with port 0, which stands for "not resolved".
    pub open spec fn unspecified() -> SocketAddress {
        SocketAddress { ip: IpAddress::V4(0), port: 0 }
    }
}

impl Default for SocketAddress {
    fn default() -> (a: SocketAddress)
        ensures
            a == SocketAddress::unspecified(),
    {
        SocketAddress { ip: IpAddress::V4(0), port: 0 }
    }
}

/// Transport protocol and IP version of a candidate.
#[derive(Clone, Copy, Debug, PartialEq, Eq, Structural, Hash)]
pub enum NetworkType {
    /// UDP over IPv4.
    Udp4,
    /// UDP over IPv6.
    Udp6,
    /// TCP over IPv4.
    Tcp4,
    /// TCP over IPv6.
    Tcp6,
}

impl Default for NetworkType {
    fn default() -> (t: NetworkType)
        ensures
            t == NetworkType::Udp4,
    {
        NetworkType::Udp4
    }
}

impl NetworkType {
    /// The number that stands for this network type where a number is kept
    /// in its place.
    pub open spec fn spec_code(&self) -> u8 {
        match *self {
            NetworkType::Udp4 => 1,
            NetworkType::Udp6 => 2,
            NetworkType::Tcp4 => 3,
            NetworkType::Tcp6 => 4,
        }
    }

    /// The network type that `code` stands for, if it stands for one.
    pub open spec fn spec_from_code(code: u8) -> Option<NetworkType> {
        if code == 1 {
            Some(NetworkType::Udp4)
        } else if code == 2 {
            Some(NetworkType::Udp6)
        } else if code == 3 {
            Some(NetworkType::Tcp4)
        } else if code == 4 {
            Some(NetworkType::Tcp6)
        } else {
            None
        }
    }

    /// The number that stands for this network type, from 1 to 4.
    #[verifier::when_used_as_spec(spec_code)]
    pub fn code(&self) -> (code: u8)
        ensures
            code == self.spec_code(),
            NetworkType::spec_from_code(code) == Some(*self),
    {
        match self {
            NetworkType::Udp4 => 1,
            NetworkType::Udp6 => 2,
            NetworkType::Tcp4 => 3,
            NetworkType::Tcp6 => 4,
        }
    }

    /// The network type that `code` stands for, if it stands for one.
    #[verifier::when_used_as_spec(spec_from_code)]
    pub fn from_code(code: u8) -> (t: Option<NetworkType>)
        ensures
            t == NetworkType::spec_from_code(code),
            t matches Some(found) ==> found.spec_code() == code,
    {
        if code == 1 {
            Some(NetworkType::Udp4)
        } else if code == 2 {
            Some(NetworkType::Udp6)
        } else if code == 3 {
            Some(NetworkType::Tcp4)
        } else if code == 4 {
            Some(NetworkType::Tcp6)
        } else {
            None
        }
    }

    /// The transport of this network type as it stands in a candidate's text.
    pub open spec fn short_name(self) -> Seq<char> {
        match self {
            NetworkType::Udp4 | NetworkType::Udp6 => "udp"@,
            NetworkType::Tcp4 | NetworkType::Tcp6 => "tcp"@,
        }
    }

    /// The name of this network type.
    pub open spec fn name(self) -> Seq<char> {
        match self {
            NetworkType::Udp4 => "udp4"@,
            NetworkType::Udp6 => "udp6"@,
            NetworkType::Tcp4 => "tcp4"@,
            NetworkType::Tcp6 => "tcp6"@,
        }
    }

    /// Whether the transport is UDP.
    pub fn is_udp(&self) -> (b: bool)
        ensures
            b == (*self is Udp4 || *self is Udp6),
    {
        match self {
            NetworkType::Udp4 | NetworkType::Udp6 => true,
            NetworkType::Tcp4 | NetworkType::Tcp6 => false,
        }
    }

    /// Whether the transport is TCP.
    pub fn is_tcp(&self) -> (b: bool)
        ensures
            b == (*self is Tcp4 || *self is Tcp6),
    {
        match self {
            NetworkType::Udp4 | NetworkType::Udp6 => false,
            NetworkType::Tcp4 | NetworkType::Tcp6 => true,
        }
    }

    /// Whether the transport delivers reliably, which is the case for TCP.
    pub fn is_reliable(&self) -> (b: bool)
        ensures
            b == (*self is Tcp4 || *self is Tcp6),
    {
        self.is_tcp()
    }

    /// Whether the address family is IPv4.
    pub fn is_ipv4(&self) -> (b: bool)
        ensures
            b == (*self is Udp4 || *self is Tcp4),
    {
        match self {
            NetworkType::Udp4 | NetworkType::Tcp4 => true,
            NetworkType::Udp6 | NetworkType::Tcp6 => false,
        }
    }

    /// Whether the address family is IPv6.
    pub fn is_ipv6(&self) -> (b: bool)
        ensures
            b == (*self is Udp6 || *self is Tcp6),
    {
        match self {
            NetworkType::Udp4 | NetworkType::Tcp4 => false,
            NetworkType::Udp6 | NetworkType::Tcp6 => true,
        }
    }

    /// The transport alone, `udp` or `tcp`, as a candidate's text names it.
    pub fn network_short(&self) -> (s: String)
        ensures
            s@ == self.short_name(),
    {
        match self {
            NetworkType::Udp4 | NetworkType::Udp6 => String::from_str("udp"),
            NetworkType::Tcp4 | NetworkType::Tcp6 => String::from_str("tcp"),
        }
    }

    /// The name of this network type: `udp4`, `udp6`, `tcp4` or `tcp6`.
    pub fn to_string(&self) -> (s: String)
        ensures
            s@ == self.name(),
    {
        match self {
            NetworkType::Udp4 => String::from_str("udp4"),
            NetworkType::Udp6 => String::from_str("udp6"),
            NetworkType::Tcp4 => String::from_str("tcp4"),
            NetworkType::Tcp6 => String::from_str("tcp6"),
        }
    }
}

/// Lower-case form of an ASCII letter; every other character is left as it is.
pub open spec fn ascii_lower(c: char) -> char {
    if 'A' <= c && c <= 'Z' {
        ((c as u32) + 32) as char
    } else {
        c
    }
}

/// `s` with its ASCII letters in lower case.
pub open spec fn ascii_lowercase(s: Seq<char>) -> Seq<char> {
    Seq::new(s.len(), |i: int| ascii_lower(s[i]))
}

/// The network type for a transport token and an address.
///
/// The token is `udp` or `tcp` in any mix of upper and lower case; the
/// address gives the IP version. No other token has a network type.
pub open spec fn determine_network_type_spec(network: Seq<char>, ip: IpAddress) -> Result<
    NetworkType,
    Error,
> {
    if ascii_lowercase(network) == "udp"@ {
        if ip is V4 {
            Ok(NetworkType::Udp4)
        } else {
            Ok(NetworkType::Udp6)
        }
    } else if ascii_lowercase(network) == "tcp"@ {
        if ip is V4 {
            Ok(NetworkType::Tcp4)
        } else {
            Ok(NetworkType::Tcp6)
        }
    } else {
        Err(Error::UnsupportedNetworkType)
    }
}

fn to_ascii_lower(c: char) -> (r: char)
    ensures
        r == ascii_lower(c),
{
    if 'A' <= c && c <= 'Z' {
        let u: u32 = c as u32;
        let v: u8 = (u + 32) as u8;
        v as char
    } else {
        c
    }
}

/// Classifies a transport token and an address into a network type.
pub fn determine_network_type(network: &str, ip: &IpAddress) -> (r: Result<NetworkType, Error>)
    ensures
        r == determine_network_type_spec(network@, *ip),
{
    proof {
        reveal_strlit("udp");
        reveal_strlit("tcp");
    }
    let chars = to_chars(network);
    if chars.len() != 3 {
        assert(ascii_lowercase(network@).len() != 3);
        return Err(Error::UnsupportedNetworkType);
    }
    let a = to_ascii_lower(chars[0]);
    let b = to_ascii_lower(chars[1]);
    let c = to_ascii_lower(chars[2]);
    let ghost lower = ascii_lowercase(network@);
    assert(lower[0] == a && lower[1] == b && lower[2] == c);
    let ipv4 = ip.is_ipv4();
    if a == 'u' && b == 'd' && c == 'p' {
        assert(lower =~= "udp"@);
        if ipv4 {
            Ok(NetworkType::Udp4)
        } else {
            Ok(NetworkType::Udp6)
        }
    } else if a == 't' && b == 'c' && c == 'p' {
        assert(lower =~= "tcp"@);
        if ipv4 {
            Ok(NetworkType::Tcp4)
        } else {
            Ok(NetworkType::Tcp6)
        }
    } else {
        Err(Error::UnsupportedNetworkType)
    }
}

/// The transport name of a network type is accepted as transport token, and
/// gives a network type of the same transport, with the IP version of the
/// address.
pub proof fn lemma_short_name_is_transport(t: NetworkType, ip: IpAddress)
    ensures
        determine_network_type_spec(t.short_name(), ip) matches Ok(n) && n.short_name()
            == t.short_name() && (n is Udp4 || n is Udp6 <==> t is Udp4 || t is Udp6) && (n is Udp4
            || n is Tcp4 <==> ip is V4),
{
    reveal_strlit("udp");
    reveal_strlit("tcp");
    let s = t.short_name();
    assert(ascii_lowercase(s) =~= s);
    assert("tcp"@[0] != "udp"@[0]);
}

} // verus!
