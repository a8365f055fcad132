//! The candidate: one transport address that a peer offers for connectivity
//! checks.

pub mod candidate_base;
pub mod candidate_host;
pub mod candidate_pair;
pub mod candidate_peer_reflexive;
pub mod candidate_relay;
pub mod candidate_remote;
pub mod candidate_server_reflexive;

use vstd::prelude::*;
use crate::decimal::decimal;
use crate::decimal::decimal_string;

verus! {

/// The component of a media stream that carries RTP.
pub const COMPONENT_RTP: u16 = 1;

/// The component of a media stream that carries RTCP.
pub const COMPONENT_RTCP: u16 = 2;

/// How a candidate's address was learned.
#[derive(Clone, Copy, Debug, PartialEq, Eq, Structural, Hash)]
pub enum CandidateType {
    /// An address of a local interface.
    Host,
    /// An address that a peer saw a connectivity check come from.
    PeerReflexive,
    /// An address that a STUN server saw a request come from.
    ServerReflexive,
    /// An address allocated on a TURN server.
    Relay,
}

impl Default for CandidateType {
    fn default() -> (t: CandidateType)
        ensures
            t == CandidateType::Host,
    {
        CandidateType::Host
    }
}

impl CandidateType {
    /// The type preference of this candidate type, the most significant part
    /// of a candidate's priority.
    pub open spec fn spec_preference(&self) -> u16 {
        match *self {
            CandidateType::Host => 126,
            CandidateType::PeerReflexive => 110,
            CandidateType::ServerReflexive => 100,
            CandidateType::Relay => 0,
        }
    }

    /// The name of this candidate type in a candidate's text.
    pub open spec fn name(self) -> Seq<char> {
        match self {
            CandidateType::Host => "host"@,
            CandidateType::PeerReflexive => "prflx"@,
            CandidateType::ServerReflexive => "srflx"@,
            CandidateType::Relay => "relay"@,
        }
    }

    /// The candidate type that `name` names, if it names one.
    pub open spec fn from_name(name: Seq<char>) -> Option<CandidateType> {
        if name == "host"@ {
            Some(CandidateType::Host)
        } else if name == "srflx"@ {
            Some(CandidateType::ServerReflexive)
        } else if name == "prflx"@ {
            Some(CandidateType::PeerReflexive)
        } else if name == "relay"@ {
            Some(CandidateType::Relay)
        } else {
            None
        }
    }

    /// Whether candidates of this type carry a related address: the address
    /// they were derived from.
    pub open spec fn spec_has_related_address(&self) -> bool {
        *self is ServerReflexive || *self is Relay
    }

    /// The type preference: host candidates first, relayed ones last.
    #[verifier::when_used_as_spec(spec_preference)]
    pub fn preference(&self) -> (p: u16)
        ensures
            p == self.spec_preference(),
    {
        match self {
            CandidateType::Host => 126,
            CandidateType::PeerReflexive => 110,
            CandidateType::ServerReflexive => 100,
            CandidateType::Relay => 0,
        }
    }

    /// Whether candidates of this type carry a related address.
    #[verifier::when_used_as_spec(spec_has_related_address)]
    pub fn has_related_address(&self) -> (b: bool)
        ensures
            b == self.spec_has_related_address(),
    {
        match self {
            CandidateType::ServerReflexive | CandidateType::Relay => true,
            CandidateType::Host | CandidateType::PeerReflexive => false,
        }
    }

    /// The name of this candidate type: `host`, `prflx`, `srflx` or `relay`.
    pub fn to_string(&self) -> (s: String)
        ensures
            s@ == self.name(),
    {
        match self {
            CandidateType::Host => String::from_str("host"),
            CandidateType::PeerReflexive => String::from_str("prflx"),
            CandidateType::ServerReflexive => String::from_str("srflx"),
            CandidateType::Relay => String::from_str("relay"),
        }
    }

    /// Each candidate type is the one that its own name names.
    pub proof fn lemma_from_name_of_name(self)
        ensures
            CandidateType::from_name(self.name()) == Some(self),
    {
        reveal_strlit("host");
        reveal_strlit("srflx");
        reveal_strlit("prflx");
        reveal_strlit("relay");
        assert("host"@.len() == 4);
        assert("srflx"@[0] == 's');
        assert("prflx"@[0] == 'p');
        assert("relay"@[0] == 'r');
    }
}

/// The address that a reflexive or relayed candidate was derived from.
#[derive(Debug)]
pub struct CandidateRelatedAddress {
    /// The address, as text.
    pub address: String,
    /// The port.
    pub port: u16,
}

/// What a related address holds.
pub struct RelatedAddressView {
    /// The address, as text.
    pub address: Seq<char>,
    /// The port.
    pub port: u16,
}

impl View for CandidateRelatedAddress {
    type V = RelatedAddressView;

    open spec fn view(&self) -> RelatedAddressView {
        RelatedAddressView { address: self.address@, port: self.port }
    }
}

impl RelatedAddressView {
    /// The text that describes the related address in diagnostics.
    pub open spec fn description(self) -> Seq<char> {
        " related "@ + self.address + ":"@ + decimal(self.port as nat)
    }
}

impl CandidateRelatedAddress {
    /// Describes the related address for diagnostics, with a blank in front.
    pub fn to_string(&self) -> (s: String)
        ensures
            s@ == self@.description(),
    {
        let mut val = String::from_str(" related ");
        val.append(self.address.as_str());
        val.append(":");
        val.append(decimal_string(self.port as u64).as_str());
        val
    }
}

/// What a related address holds, where there is one.
pub open spec fn related_view(related: Option<CandidateRelatedAddress>) -> Option<
    RelatedAddressView,
> {
    match related {
        Some(related) => Some(related@),
        None => None,
    }
}

impl Clone for CandidateRelatedAddress {
    fn clone(&self) -> (r: CandidateRelatedAddress)
        ensures
            r@ == self@,
    {
        CandidateRelatedAddress { address: self.address.clone(), port: self.port }
    }
}

} // verus!
