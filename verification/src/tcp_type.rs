//! The role of a candidate in opening a TCP connection.

use vstd::prelude::*;
use crate::words::text_eq;

verus! {

/// How a TCP candidate takes part in opening the connection.
#[derive(Clone, Copy, Debug, PartialEq, Eq, Structural, Hash)]
pub enum TcpType {
    /// Not a TCP candidate, or the role was not given.
    Unspecified,
    /// The candidate opens the connection and accepts none.
    Active,
    /// The candidate accepts a connection and opens none.
    Passive,
    /// The candidate opens a connection at the same time as its peer.
    SimultaneousOpen,
}

impl Default for TcpType {
    fn default() -> (t: TcpType)
        ensures
            t == TcpType::Unspecified,
    {
        TcpType::Unspecified
    }
}

impl TcpType {
    /// The name of the role in a candidate's text.
    pub open spec fn name(self) -> Seq<char> {
        match self {
            TcpType::Unspecified => "unspecified"@,
            TcpType::Active => "active"@,
            TcpType::Passive => "passive"@,
            TcpType::SimultaneousOpen => "so"@,
        }
    }

    /// The role that `name` names, `Unspecified` where it names none.
    pub open spec fn from_name(name: Seq<char>) -> TcpType {
        if name == "active"@ {
            TcpType::Active
        } else if name == "passive"@ {
            TcpType::Passive
        } else if name == "so"@ {
            TcpType::SimultaneousOpen
        } else {
            TcpType::Unspecified
        }
    }

    /// The name of the role: `active`, `passive`, `so` or `unspecified`.
    pub fn to_string(&self) -> (s: String)
        ensures
            s@ == self.name(),
    {
        match self {
            TcpType::Unspecified => String::from_str("unspecified"),
            TcpType::Active => String::from_str("active"),
            TcpType::Passive => String::from_str("passive"),
            TcpType::SimultaneousOpen => String::from_str("so"),
        }
    }

    /// Each role is the one that its own name names.
    pub proof fn lemma_from_name_of_name(self)
        ensures
            TcpType::from_name(self.name()) == self,
    {
        reveal_strlit("unspecified");
        reveal_strlit("active");
        reveal_strlit("passive");
        reveal_strlit("so");
        assert("unspecified"@.len() == 11);
        assert("active"@.len() == 6);
        assert("passive"@.len() == 7);
        assert("so"@.len() == 2);
    }
}

impl From<&str> for TcpType {
    fn from(name: &str) -> (t: TcpType) {
        if text_eq(name, "active") {
            TcpType::Active
        } else if text_eq(name, "passive") {
            TcpType::Passive
        } else if text_eq(name, "so") {
            TcpType::SimultaneousOpen
        } else {
            TcpType::Unspecified
        }
    }
}

impl vstd::std_specs::convert::FromSpecImpl<&str> for TcpType {
    open spec fn obeys_from_spec() -> bool {
        true
    }

    open spec fn from_spec(name: &str) -> TcpType {
        TcpType::from_name(name@)
    }
}

} // verus!
