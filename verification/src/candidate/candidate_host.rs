//! Construction of host candidates.

use vstd::prelude::*;
use crate::candidate::candidate_base::CandidateBase;
use crate::candidate::candidate_base::CandidateBaseConfig;
use crate::candidate::candidate_base::CandidateBaseConfigView;
use crate::candidate::candidate_base::construct;
use crate::candidate::candidate_base::constructed;
use crate::candidate::candidate_base::outcome_view;
use crate::candidate::candidate_base::resolve;
use crate::candidate::candidate_base::resolve_spec;
use crate::candidate::CandidateType;
use crate::error::Error;
use crate::network_type::determine_network_type;
use crate::network_type::determine_network_type_spec;
use crate::network_type::IpAddress;
use crate::network_type::NetworkType;
use crate::network_type::SocketAddress;
use crate::tcp_type::TcpType;
use crate::words::ends_with;
use crate::words::ends_with_spec;

verus! {

/// The config required to create a new host candidate.
#[derive(Debug)]
pub struct CandidateHostConfig {
    /// What all construction configs share.
    pub base_config: CandidateBaseConfig,
    /// The role of the candidate in opening a TCP connection.
    pub tcp_type: TcpType,
}

/// What a host config holds.
pub struct CandidateHostConfigView {
    /// What all construction configs share.
    pub base_config: CandidateBaseConfigView,
    /// The role of the candidate in opening a TCP connection.
    pub tcp_type: TcpType,
}

impl View for CandidateHostConfig {
    type V = CandidateHostConfigView;

    open spec fn view(&self) -> CandidateHostConfigView {
        CandidateHostConfigView { base_config: self.base_config@, tcp_type: self.tcp_type }
    }
}

impl Default for CandidateHostConfig {
    fn default() -> (c: CandidateHostConfig)
        ensures
            c@ == (CandidateHostConfigView {
                base_config: CandidateBaseConfigView::initial(),
                tcp_type: TcpType::Unspecified,
            }),
    {
        CandidateHostConfig {
            base_config: CandidateBaseConfig::default(),
            tcp_type: TcpType::Unspecified,
        }
    }
}

/// Whether `address` is a name of the local link, to be resolved by
/// multicast DNS: it ends in `.local`.
pub open spec fn is_local_name(address: Seq<char>) -> bool {
    ends_with_spec(address, ".local"@)
}

/// Network type and resolved address of a host candidate.
///
/// A name of the local link is not read as an IP address: until it is
/// resolved the candidate counts as IPv4 and its resolved address is left
/// unspecified. Any other address resolves as for every candidate.
pub open spec fn resolve_host_spec(
    network: Seq<char>,
    address: Seq<char>,
    ip: Option<IpAddress>,
    port: u16,
) -> Result<(NetworkType, SocketAddress), Error> {
    if is_local_name(address) {
        match determine_network_type_spec(network, IpAddress::V4(0)) {
            Ok(network_type) => Ok((network_type, SocketAddress::unspecified())),
            Err(e) => Err(e),
        }
    } else {
        resolve_spec(network, ip, port)
    }
}

/// Classifies the address of a host candidate under construction.
pub fn resolve_host(network: &str, address: &str, ip: Option<IpAddress>, port: u16) -> (r: Result<
    (NetworkType, SocketAddress),
    Error,
>)
    ensures
        r == resolve_host_spec(network@, address@, ip, port),
{
    if ends_with(address, ".local") {
        match determine_network_type(network, &IpAddress::V4(0)) {
            Ok(network_type) => Ok((network_type, SocketAddress::default())),
            Err(e) => Err(e),
        }
    } else {
        resolve(network, ip, port)
    }
}

impl CandidateHostConfig {
    /// Creates a new host candidate.
    ///
    /// `ip` is what the address of the config reads as: `None` where it is no
    /// literal IP address. Where the address is a name of the local link `ip`
    /// plays no part; otherwise `None` fails the construction. The candidate
    /// has no related address, and the TCP role of the config.
    pub fn new_candidate_host(self, ip: Option<IpAddress>) -> (r: Result<CandidateBase, Error>)
        ensures
            constructed(
                self@.base_config,
                resolve_host_spec(
                    self@.base_config.network,
                    self@.base_config.address,
                    ip,
                    self@.base_config.port,
                ),
                CandidateType::Host,
                None,
                self@.tcp_type,
                outcome_view(r),
            ),
            r matches Ok(c) ==> c@.is_well_formed(),
    {
        let resolution = resolve_host(
            self.base_config.network.as_str(),
            self.base_config.address.as_str(),
            ip,
            self.base_config.port,
        );
        construct(self.base_config, resolution, CandidateType::Host, None, self.tcp_type)
    }
}

} // verus!
