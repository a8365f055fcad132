//! Construction of relay candidates.

use vstd::prelude::*;
use crate::candidate::candidate_base::CandidateBase;
use crate::candidate::candidate_base::CandidateBaseConfig;
use crate::candidate::candidate_base::CandidateBaseConfigView;
use crate::candidate::candidate_base::construct;
use crate::candidate::candidate_base::constructed;
use crate::candidate::candidate_base::outcome_view;
use crate::candidate::candidate_base::resolve;
use crate::candidate::candidate_base::resolve_spec;
use crate::candidate::CandidateRelatedAddress;
use crate::candidate::CandidateType;
use crate::candidate::RelatedAddressView;
use crate::error::Error;
use crate::network_type::IpAddress;
use crate::tcp_type::TcpType;

verus! {

/// The config required to create a new relay candidate.
#[derive(Debug)]
pub struct CandidateRelayConfig {
    /// What all construction configs share.
    pub base_config: CandidateBaseConfig,
    /// The address that the allocation on the TURN server was requested from.
    pub rel_addr: String,
    /// The port that the allocation on the TURN server was requested from.
    pub rel_port: u16,
}

/// What a relay config holds.
pub struct CandidateRelayConfigView {
    /// What all construction configs share.
    pub base_config: CandidateBaseConfigView,
    /// The related address.
    pub rel_addr: Seq<char>,
    /// The related port.
    pub rel_port: u16,
}

impl View for CandidateRelayConfig {
    type V = CandidateRelayConfigView;

    open spec fn view(&self) -> CandidateRelayConfigView {
        CandidateRelayConfigView {
            base_config: self.base_config@,
            rel_addr: self.rel_addr@,
            rel_port: self.rel_port,
        }
    }
}

impl Default for CandidateRelayConfig {
    fn default() -> (c: CandidateRelayConfig)
        ensures
            c@ == (CandidateRelayConfigView {
                base_config: CandidateBaseConfigView::initial(),
                rel_addr: Seq::empty(),
                rel_port: 0,
            }),
    {
        CandidateRelayConfig {
            base_config: CandidateBaseConfig::default(),
            rel_addr: String::new(),
            rel_port: 0,
        }
    }
}

impl CandidateRelayConfig {
    /// Creates a new relay candidate.
    ///
    /// `ip` is what the address of the config reads as: `None` where it is no
    /// literal IP address, which fails the construction. The transport token
    /// and the version of `ip` give the network type; `ip` with the port of
    /// the config is the resolved address; the related address is the one of
    /// the config.
    pub fn new_candidate_relay(self, ip: Option<IpAddress>) -> (r: Result<
        CandidateBase,
        Error,
    >)
        ensures
            constructed(
                self@.base_config,
                resolve_spec(self@.base_config.network, ip, self@.base_config.port),
                CandidateType::Relay,
                Some(RelatedAddressView { address: self@.rel_addr, port: self@.rel_port }),
                TcpType::Unspecified,
                outcome_view(r),
            ),
            r matches Ok(c) ==> c@.is_well_formed(),
    {
        let resolution = resolve(self.base_config.network.as_str(), ip, self.base_config.port);
        construct(
            self.base_config,
            resolution,
            CandidateType::Relay,
            Some(CandidateRelatedAddress { address: self.rel_addr, port: self.rel_port }),
            TcpType::Unspecified,
        )
    }
}

} // verus!
