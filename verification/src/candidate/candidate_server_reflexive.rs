//! Construction of server reflexive candidates.

use vstd::prelude::*;
use crate::candidate::candidate_base::CandidateBase;
use crate::candidate::candidate_base::CandidateBaseConfig;
use crate::candidate::candidate_base::CandidateBaseConfigView;
use crate::candidate::candidate_base::construct;
use crate::candidate::candidate_base::constructed;
use crate::candidate::candidate_base::outcome_view;
use crate::candidate::candidate_base::resolve;
use crate::candidate::candidate_base::resolve_spec;
use crate::candidate::CandidateRelatedAddress;
use crate::candidate::CandidateType;
use crate::candidate::RelatedAddressView;
use crate::error::Error;
use crate::network_type::IpAddress;
use crate::tcp_type::TcpType;

verus! {

/// The config required to create a new server reflexive candidate.
#[derive(Debug)]
pub struct CandidateServerReflexiveConfig {
    /// What all construction configs share.
    pub base_config: CandidateBaseConfig,
    /// The address that the request to the STUN server was sent from.
    pub rel_addr: String,
    /// The port that the request to the STUN server was sent from.
    pub rel_port: u16,
}

/// What a server reflexive config holds.
pub struct CandidateServerReflexiveConfigView {
    /// What all construction configs share.
    pub base_config: CandidateBaseConfigView,
    /// The related address.
    pub rel_addr: Seq<char>,
    /// The related port.
    pub rel_port: u16,
}

impl View for CandidateServerReflexiveConfig {
    type V = CandidateServerReflexiveConfigView;

    open spec fn view(&self) -> CandidateServerReflexiveConfigView {
        CandidateServerReflexiveConfigView {
            base_config: self.base_config@,
            rel_addr: self.rel_addr@,
            rel_port: self.rel_port,
        }
    }
}

impl Default for CandidateServerReflexiveConfig {
    fn default() -> (c: CandidateServerReflexiveConfig)
        ensures
            c@ == (CandidateServerReflexiveConfigView {
                base_config: CandidateBaseConfigView::initial(),
                rel_addr: Seq::empty(),
                rel_port: 0,
            }),
    {
        CandidateServerReflexiveConfig {
            base_config: CandidateBaseConfig::default(),
            rel_addr: String::new(),
            rel_port: 0,
        }
    }
}

impl CandidateServerReflexiveConfig {
    /// Creates a new server reflexive candidate.
    ///
    /// `ip` is what the address of the config reads as: `None` where it is no
    /// literal IP address, which fails the construction. The transport token
    /// and the version of `ip` give the network type; `ip` with the port of
    /// the config is the resolved address; the related address is the one of
    /// the config.
    pub fn new_candidate_server_reflexive(self, ip: Option<IpAddress>) -> (r: Result<
        CandidateBase,
        Error,
    >)
        ensures
            constructed(
                self@.base_config,
                resolve_spec(self@.base_config.network, ip, self@.base_config.port),
                CandidateType::ServerReflexive,
                Some(RelatedAddressView { address: self@.rel_addr, port: self@.rel_port }),
                TcpType::Unspecified,
                outcome_view(r),
            ),
            r matches Ok(c) ==> c@.is_well_formed(),
    {
        let resolution = resolve(self.base_config.network.as_str(), ip, self.base_config.port);
        construct(
            self.base_config,
            resolution,
            CandidateType::ServerReflexive,
            Some(CandidateRelatedAddress { address: self.rel_addr, port: self.rel_port }),
            TcpType::Unspecified,
        )
    }
}

} // verus!
