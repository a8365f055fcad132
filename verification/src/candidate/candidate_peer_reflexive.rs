//! Construction of peer reflexive candidates.

use vstd::prelude::*;
use crate::candidate::candidate_base::CandidateBase;
use crate::candidate::candidate_base::CandidateBaseConfig;
use crate::candidate::candidate_base::CandidateBaseConfigView;
use crate::candidate::candidate_base::construct;
use crate::candidate::candidate_base::constructed;
use crate::candidate::candidate_base::outcome_view;
use crate::candidate::candidate_base::resolve;
use crate::candidate::candidate_base::resolve_spec;
use crate::candidate::CandidateType;
use crate::error::Error;
use crate::network_type::IpAddress;
use crate::tcp_type::TcpType;

verus! {

/// The config required to create a new peer reflexive candidate.
#[derive(Debug)]
pub struct CandidatePeerReflexiveConfig {
    /// What all construction configs share.
    pub base_config: CandidateBaseConfig,
}

/// What a peer reflexive config holds.
pub struct CandidatePeerReflexiveConfigView {
    /// What all construction configs share.
    pub base_config: CandidateBaseConfigView,
}

impl View for CandidatePeerReflexiveConfig {
    type V = CandidatePeerReflexiveConfigView;

    open spec fn view(&self) -> CandidatePeerReflexiveConfigView {
        CandidatePeerReflexiveConfigView { base_config: self.base_config@ }
    }
}

impl Default for CandidatePeerReflexiveConfig {
    fn default() -> (c: CandidatePeerReflexiveConfig)
        ensures
            c@ == (CandidatePeerReflexiveConfigView {
                base_config: CandidateBaseConfigView::initial(),
            }),
    {
        CandidatePeerReflexiveConfig { base_config: CandidateBaseConfig::default() }
    }
}

impl CandidatePeerReflexiveConfig {
    /// Creates a new peer reflexive candidate.
    ///
    /// `ip` is what the address of the config reads as: `None` where it is no
    /// literal IP address, which fails the construction. The transport token
    /// and the version of `ip` give the network type; `ip` with the port of
    /// the config is the resolved address. The candidate has no related
    /// address.
    pub fn new_candidate_peer_reflexive(self, ip: Option<IpAddress>) -> (r: Result<
        CandidateBase,
        Error,
    >)
        ensures
            constructed(
                self@.base_config,
                resolve_spec(self@.base_config.network, ip, self@.base_config.port),
                CandidateType::PeerReflexive,
                None,
                TcpType::Unspecified,
                outcome_view(r),
            ),
            r matches Ok(c) ==> c@.is_well_formed(),
    {
        let resolution = resolve(self.base_config.network.as_str(), ip, self.base_config.port);
        construct(
            self.base_config,
            resolution,
            CandidateType::PeerReflexive,
            None,
            TcpType::Unspecified,
        )
    }
}

} // verus!
