//! The candidate record, its priority, its foundation and its text.

use vstd::prelude::*;
use crate::candidate::CandidateRelatedAddress;
use crate::candidate::CandidateType;
use crate::candidate::related_view;
use crate::candidate::RelatedAddressView;
use crate::candidate_id::generate_cand_id;
use crate::candidate_id::is_generated_id;
use crate::decimal::decimal;
use crate::decimal::decimal_string;
use crate::error::Error;
use crate::foundation::derive_foundation;
use crate::foundation::derived_foundation;
use crate::foundation::lemma_derived_foundation_injective;
use crate::network_type::determine_network_type;
use crate::network_type::determine_network_type_spec;
use crate::network_type::IpAddress;
use crate::network_type::NetworkType;
use crate::network_type::SocketAddress;
use crate::tcp_type::TcpType;
use crate::words::is_word;

verus! {

/// The local preference of a candidate on the only interface considered.
pub const DEFAULT_LOCAL_PREFERENCE: u16 = 65535;

/// One transport address offered for connectivity checks.
///
/// Type, address, port and related address are fixed when the candidate is
/// built. Network type, component, resolved address and the two time stamps
/// follow what happens to the candidate during a session.
#[derive(Debug)]
pub struct CandidateBase {
    /// The identifier of the candidate.
    pub id: String,
    /// Transport and IP version.
    pub network_type: NetworkType,
    /// How the address was learned.
    pub candidate_type: CandidateType,
    /// The component of the media stream that the candidate is for.
    pub component: u16,
    /// The address, as text: an IP address or a name still to be resolved.
    pub address: String,
    /// The port.
    pub port: u16,
    /// The address that the candidate was derived from.
    pub related_address: Option<CandidateRelatedAddress>,
    /// The role in opening a TCP connection.
    pub tcp_type: TcpType,
    /// The address and port that `address` and `port` resolve to.
    pub resolved_addr: SocketAddress,
    /// When something was last sent from this candidate, in nanoseconds since
    /// the epoch; 0 stands for never.
    pub last_sent: u64,
    /// When something was last received on this candidate, in nanoseconds
    /// since the epoch; 0 stands for never.
    pub last_received: u64,
    /// The foundation to report in place of the derived one; empty for none.
    pub foundation_override: String,
    /// The priority to report in place of the computed one; 0 for none.
    pub priority_override: u32,
    /// The transport token that the candidate was built with.
    pub network: String,
}

/// What a candidate holds.
pub struct CandidateView {
    /// The identifier of the candidate.
    pub id: Seq<char>,
    /// Transport and IP version.
    pub network_type: NetworkType,
    /// How the address was learned.
    pub candidate_type: CandidateType,
    /// The component of the media stream that the candidate is for.
    pub component: u16,
    /// The address, as text.
    pub address: Seq<char>,
    /// The port.
    pub port: u16,
    /// The address that the candidate was derived from.
    pub related_address: Option<RelatedAddressView>,
    /// The role in opening a TCP connection.
    pub tcp_type: TcpType,
    /// The address and port that `address` and `port` resolve to.
    pub resolved_addr: SocketAddress,
    /// Time of the last send, in nanoseconds since the epoch.
    pub last_sent: u64,
    /// Time of the last receipt, in nanoseconds since the epoch.
    pub last_received: u64,
    /// The foundation to report in place of the derived one; empty for none.
    pub foundation_override: Seq<char>,
    /// The priority to report in place of the computed one; 0 for none.
    pub priority_override: u32,
    /// The transport token that the candidate was built with.
    pub network: Seq<char>,
}

impl View for CandidateBase {
    type V = CandidateView;

    open spec fn view(&self) -> CandidateView {
        CandidateView {
            id: self.id@,
            network_type: self.network_type,
            candidate_type: self.candidate_type,
            component: self.component,
            address: self.address@,
            port: self.port,
            related_address: related_view(self.related_address),
            tcp_type: self.tcp_type,
            resolved_addr: self.resolved_addr,
            last_sent: self.last_sent,
            last_received: self.last_received,
            foundation_override: self.foundation_override@,
            priority_override: self.priority_override,
            network: self.network@,
        }
    }
}

/// What the typed construction configs share.
#[derive(Debug)]
pub struct CandidateBaseConfig {
    /// The identifier for the candidate; empty to have one generated.
    pub candidate_id: String,
    /// The transport token, `udp` or `tcp`.
    pub network: String,
    /// The address, as text.
    pub address: String,
    /// The port.
    pub port: u16,
    /// The component of the media stream that the candidate is for.
    pub component: u16,
    /// The priority to report in place of the computed one; 0 for none.
    pub priority: u32,
    /// The foundation to report in place of the derived one; empty for none.
    pub foundation: String,
}

/// What a base config holds.
pub struct CandidateBaseConfigView {
    /// The identifier for the candidate; empty to have one generated.
    pub candidate_id: Seq<char>,
    /// The transport token.
    pub network: Seq<char>,
    /// The address, as text.
    pub address: Seq<char>,
    /// The port.
    pub port: u16,
    /// The component of the media stream that the candidate is for.
    pub component: u16,
    /// The priority to report in place of the computed one; 0 for none.
    pub priority: u32,
    /// The foundation to report in place of the derived one; empty for none.
    pub foundation: Seq<char>,
}

impl View for CandidateBaseConfig {
    type V = CandidateBaseConfigView;

    open spec fn view(&self) -> CandidateBaseConfigView {
        CandidateBaseConfigView {
            candidate_id: self.candidate_id@,
            network: self.network@,
            address: self.address@,
            port: self.port,
            component: self.component,
            priority: self.priority,
            foundation: self.foundation@,
        }
    }
}

impl CandidateBaseConfigView {
    /// A config with nothing set: empty texts, port 0, the RTP component and
    /// no overrides.
    pub open spec fn initial() -> CandidateBaseConfigView {
        CandidateBaseConfigView {
            candidate_id: Seq::empty(),
            network: Seq::empty(),
            address: Seq::empty(),
            port: 0,
            component: 1,
            priority: 0,
            foundation: Seq::empty(),
        }
    }
}

impl Default for CandidateBaseConfig {
    fn default() -> (c: CandidateBaseConfig)
        ensures
            c@ == CandidateBaseConfigView::initial(),
    {
        CandidateBaseConfig {
            candidate_id: String::new(),
            network: String::new(),
            address: String::new(),
            port: 0,
            component: 1,
            priority: 0,
            foundation: String::new(),
        }
    }
}

/// Whether `id` can be the identifier of a candidate built with
/// `requested`: the requested identifier itself, or a generated one where
/// none was requested.
pub open spec fn accepts_id(requested: Seq<char>, id: Seq<char>) -> bool {
    if requested.len() > 0 {
        id == requested
    } else {
        is_generated_id(id)
    }
}

/// Network type and resolved address of a candidate built for the transport
/// token `network` and the port `port`, where `ip` is what its address reads
/// as: `None` where the address is no literal IP address.
pub open spec fn resolve_spec(network: Seq<char>, ip: Option<IpAddress>, port: u16) -> Result<
    (NetworkType, SocketAddress),
    Error,
> {
    match ip {
        None => Err(Error::AddressParseFailed),
        Some(ip) => match determine_network_type_spec(network, ip) {
            Ok(network_type) => Ok((network_type, SocketAddress { ip, port })),
            Err(e) => Err(e),
        },
    }
}

/// The candidate that a construction config gives: what the config holds,
/// the time stamps at the epoch, and the rest as handed in.
pub open spec fn candidate_from_config(
    config: CandidateBaseConfigView,
    id: Seq<char>,
    candidate_type: CandidateType,
    network_type: NetworkType,
    resolved_addr: SocketAddress,
    related_address: Option<RelatedAddressView>,
    tcp_type: TcpType,
) -> CandidateView {
    CandidateView {
        id,
        network_type,
        candidate_type,
        component: config.component,
        address: config.address,
        port: config.port,
        related_address,
        tcp_type,
        resolved_addr,
        last_sent: 0,
        last_received: 0,
        foundation_override: config.foundation,
        priority_override: config.priority,
        network: config.network,
    }
}

/// The candidate inside a result of construction, as what it holds.
pub open spec fn outcome_view(r: Result<CandidateBase, Error>) -> Result<CandidateView, Error> {
    match r {
        Ok(c) => Ok(c@),
        Err(e) => Err(e),
    }
}

/// Whether `outcome` is what construction from `config` gives, where
/// `resolution` is network type and resolved address of the candidate, or the
/// reason why it has none.
///
/// Construction fails exactly where the resolution failed, and with its
/// error. Where it succeeds the candidate is the one that the config, the
/// resolution, the type, the related address and the TCP role describe, under
/// the identifier of the config or, where that is empty, a generated one.
pub open spec fn constructed(
    config: CandidateBaseConfigView,
    resolution: Result<(NetworkType, SocketAddress), Error>,
    candidate_type: CandidateType,
    related_address: Option<RelatedAddressView>,
    tcp_type: TcpType,
    outcome: Result<CandidateView, Error>,
) -> bool {
    match outcome {
        Ok(c) => {
            &&& resolution matches Ok(found)
            &&& accepts_id(config.candidate_id, c.id)
            &&& c == candidate_from_config(
                config,
                c.id,
                candidate_type,
                found.0,
                found.1,
                related_address,
                tcp_type,
            )
        },
        Err(e) => resolution == Err::<(NetworkType, SocketAddress), Error>(e),
    }
}

/// The direction preference of a TCP candidate: how much its role in opening
/// the connection counts, by candidate type.
pub open spec fn direction_preference(candidate_type: CandidateType, tcp_type: TcpType) -> nat {
    match candidate_type {
        CandidateType::Host | CandidateType::Relay => match tcp_type {
            TcpType::Active => 6,
            TcpType::Passive => 4,
            TcpType::SimultaneousOpen => 2,
            TcpType::Unspecified => 0,
        },
        CandidateType::PeerReflexive | CandidateType::ServerReflexive => match tcp_type {
            TcpType::SimultaneousOpen => 6,
            TcpType::Active => 4,
            TcpType::Passive => 2,
            TcpType::Unspecified => 0,
        },
    }
}

/// The local preference of a candidate: the highest one over UDP, and over
/// TCP `2^13` times the direction preference plus `2^13 - 1`.
pub open spec fn local_preference_spec(
    candidate_type: CandidateType,
    network_type: NetworkType,
    tcp_type: TcpType,
) -> nat {
    if network_type is Tcp4 || network_type is Tcp6 {
        8192 * direction_preference(candidate_type, tcp_type) + 8191
    } else {
        65535
    }
}

/// The priority of a candidate by the standard formula:
/// `2^24 * type preference + 2^8 * local preference + (256 - component)`.
pub open spec fn computed_priority(
    candidate_type: CandidateType,
    network_type: NetworkType,
    tcp_type: TcpType,
    component: u16,
) -> int {
    16777216 * candidate_type.spec_preference() + 256 * local_preference_spec(
        candidate_type,
        network_type,
        tcp_type,
    ) + (256 - component)
}

/// The priority that a candidate reports: `priority_override` where that is
/// not 0, else the computed priority.
pub open spec fn priority_spec(
    candidate_type: CandidateType,
    network_type: NetworkType,
    tcp_type: TcpType,
    component: u16,
    priority_override: u32,
) -> nat {
    if priority_override != 0 {
        priority_override as nat
    } else {
        computed_priority(candidate_type, network_type, tcp_type, component) as nat
    }
}

/// The foundation that a candidate reports: `foundation_override` where that
/// is not empty, else the foundation derived from candidate type, network type
/// and address.
pub open spec fn foundation_spec(
    candidate_type: CandidateType,
    network_type: NetworkType,
    address: Seq<char>,
    foundation_override: Seq<char>,
) -> Seq<char> {
    if foundation_override.len() > 0 {
        foundation_override
    } else {
        derived_foundation(candidate_type, network_type, address)
    }
}

impl CandidateView {
    /// A candidate with nothing set: a host candidate over UDP and IPv4 for
    /// the RTP component, with empty texts and time stamps at the epoch.
    pub open spec fn initial() -> CandidateView {
        CandidateView {
            id: Seq::empty(),
            network_type: NetworkType::Udp4,
            candidate_type: CandidateType::Host,
            component: 1,
            address: Seq::empty(),
            port: 0,
            related_address: None,
            tcp_type: TcpType::Unspecified,
            resolved_addr: SocketAddress::unspecified(),
            last_sent: 0,
            last_received: 0,
            foundation_override: Seq::empty(),
            priority_override: 0,
            network: Seq::empty(),
        }
    }

    /// The local preference of the candidate.
    pub open spec fn local_preference(self) -> nat {
        local_preference_spec(self.candidate_type, self.network_type, self.tcp_type)
    }

    /// The priority of the candidate: the override where one is set, else the
    /// priority computed from type, network type, TCP role and component.
    pub open spec fn priority(self) -> nat {
        priority_spec(
            self.candidate_type,
            self.network_type,
            self.tcp_type,
            self.component,
            self.priority_override,
        )
    }

    /// The foundation of the candidate: the override where one is set, else
    /// the one derived from candidate type, network type and address.
    pub open spec fn foundation(self) -> Seq<char> {
        foundation_spec(
            self.candidate_type,
            self.network_type,
            self.address,
            self.foundation_override,
        )
    }

    /// Whether two candidates count as the same candidate: they agree in
    /// network type, candidate type, address, port, component, TCP role and
    /// related address. Identifier, time stamps, overrides and resolved
    /// address play no part.
    pub open spec fn equal(self, other: CandidateView) -> bool {
        &&& self.network_type == other.network_type
        &&& self.candidate_type == other.candidate_type
        &&& self.address == other.address
        &&& self.port == other.port
        &&& self.component == other.component
        &&& self.tcp_type == other.tcp_type
        &&& self.related_address == other.related_address
    }

    /// The candidate with `nanos` as the time of the last send.
    pub open spec fn with_last_sent(self, nanos: u64) -> CandidateView {
        CandidateView { last_sent: nanos, ..self }
    }

    /// The candidate with `nanos` as the time of the last receipt.
    pub open spec fn with_last_received(self, nanos: u64) -> CandidateView {
        CandidateView { last_received: nanos, ..self }
    }

    /// Whether the candidate has a related address exactly if its type calls
    /// for one.
    pub open spec fn is_well_formed(self) -> bool {
        self.related_address is Some <==> self.candidate_type.spec_has_related_address()
    }

    /// Whether the text of the candidate can be read back word by word:
    /// the address, the related address and, where one is set, the foundation
    /// override are each one word. A candidate with an empty address or an
    /// empty related address, as a config with nothing set gives it, is not:
    /// its text lacks a word.
    pub open spec fn is_marshalable(self) -> bool {
        &&& is_word(self.address)
        &&& self.foundation_override.len() > 0 ==> is_word(self.foundation_override)
        &&& self.related_address matches Some(related) ==> is_word(related.address)
    }

    /// Whether the TCP role shows in the candidate's text: the transport is
    /// TCP and a role is given.
    pub open spec fn shows_tcp_type(self) -> bool {
        (self.network_type is Tcp4 || self.network_type is Tcp6) && self.tcp_type
            != TcpType::Unspecified
    }

    /// The eight leading fields of the candidate's text.
    pub open spec fn marshal_head(self) -> Seq<char> {
        self.foundation() + " "@ + decimal(self.component as nat) + " "@
            + self.network_type.short_name() + " "@ + decimal(self.priority()) + " "@
            + self.address + " "@ + decimal(self.port as nat) + " "@ + "typ"@ + " "@
            + self.candidate_type.name()
    }

    /// `text` followed by the related address, where the candidate has one.
    pub open spec fn marshal_related(self, text: Seq<char>) -> Seq<char> {
        match self.related_address {
            Some(related) => text + " "@ + "raddr"@ + " "@ + related.address + " "@ + "rport"@
                + " "@ + decimal(related.port as nat),
            None => text,
        }
    }

    /// `text` followed by the TCP role, where it shows.
    pub open spec fn marshal_tcp_type(self, text: Seq<char>) -> Seq<char> {
        if self.shows_tcp_type() {
            text + " "@ + "tcptype"@ + " "@ + self.tcp_type.name()
        } else {
            text
        }
    }

    /// The text of the candidate: its fields in the fixed order, one blank
    /// between any two.
    ///
    /// `<foundation> <component> <transport> <priority> <address> <port> typ
    /// <type>`, then `raddr <address> rport <port>` where the candidate has a
    /// related address, then `tcptype <role>` where the TCP role shows.
    pub open spec fn marshal(self) -> Seq<char> {
        self.marshal_tcp_type(self.marshal_related(self.marshal_head()))
    }

    /// The text that describes a related address in diagnostics.
    pub open spec fn related_description(self) -> Seq<char> {
        match self.related_address {
            Some(related) => related.description(),
            None => Seq::empty(),
        }
    }

    /// The text that describes the candidate in diagnostics.
    pub open spec fn description(self) -> Seq<char> {
        self.network_type.name() + " "@ + self.candidate_type.name() + " "@ + self.address + ":"@
            + decimal(self.port as nat) + self.related_description()
    }
}

/// The priority that a candidate computes is positive and fits in 32 bits,
/// whatever its type, network type, TCP role and component.
pub proof fn lemma_computed_priority_bounds(
    candidate_type: CandidateType,
    network_type: NetworkType,
    tcp_type: TcpType,
    component: u16,
)
    ensures
        0 < computed_priority(candidate_type, network_type, tcp_type, component) <= u32::MAX,
{
}

/// The candidate type decides first: whatever network type, TCP role and
/// component two candidates have, a host candidate computes a higher priority
/// than a peer reflexive one, that one a higher priority than a server
/// reflexive one, and that one a higher priority than a relayed one.
pub proof fn lemma_priority_ranks_types(
    n1: NetworkType,
    r1: TcpType,
    c1: u16,
    n2: NetworkType,
    r2: TcpType,
    c2: u16,
)
    ensures
        computed_priority(CandidateType::Host, n1, r1, c1) > computed_priority(
            CandidateType::PeerReflexive,
            n2,
            r2,
            c2,
        ),
        computed_priority(CandidateType::PeerReflexive, n1, r1, c1) > computed_priority(
            CandidateType::ServerReflexive,
            n2,
            r2,
            c2,
        ),
        computed_priority(CandidateType::ServerReflexive, n1, r1, c1) > computed_priority(
            CandidateType::Relay,
            n2,
            r2,
            c2,
        ),
{
}

/// Among candidates of one type and one component, one over UDP computes a
/// higher priority than one over TCP, whatever the TCP role.
pub proof fn lemma_priority_ranks_udp_first(
    candidate_type: CandidateType,
    udp: NetworkType,
    tcp: NetworkType,
    r1: TcpType,
    r2: TcpType,
    component: u16,
)
    requires
        udp is Udp4 || udp is Udp6,
        tcp is Tcp4 || tcp is Tcp6,
    ensures
        computed_priority(candidate_type, udp, r1, component) > computed_priority(
            candidate_type,
            tcp,
            r2,
            component,
        ),
{
}

/// Counting as the same candidate is an equivalence: every candidate counts
/// as itself, and the relation is symmetric and transitive.
pub proof fn lemma_equal_is_equivalence(a: CandidateView, b: CandidateView, c: CandidateView)
    ensures
        a.equal(a),
        a.equal(b) ==> b.equal(a),
        a.equal(b) && b.equal(c) ==> a.equal(c),
{
}

/// The foundation of a candidate does not depend on its port.
pub proof fn lemma_foundation_ignores_port(c: CandidateView, port: u16)
    ensures
        (CandidateView { port, ..c }).foundation() == c.foundation(),
{
}

/// Two candidates without foundation override have the same foundation if
/// and only if they agree in candidate type, network type and address.
pub proof fn lemma_foundation_tells_apart(a: CandidateView, b: CandidateView)
    requires
        a.foundation_override.len() == 0,
        b.foundation_override.len() == 0,
    ensures
        a.foundation() == b.foundation() <==> a.candidate_type == b.candidate_type
            && a.network_type == b.network_type && a.address == b.address,
{
    lemma_derived_foundation_injective(
        a.candidate_type,
        a.network_type,
        a.address,
        b.candidate_type,
        b.network_type,
        b.address,
    );
}

/// The time stamps of a candidate with nothing set are at the epoch, and a
/// time stamp that was set reads as the value it was set to, whatever the
/// other one holds.
pub proof fn lemma_time_stamps_read_back(c: CandidateView, nanos: u64)
    ensures
        CandidateView::initial().last_sent == 0,
        CandidateView::initial().last_received == 0,
        c.with_last_sent(nanos).last_sent == nanos,
        c.with_last_sent(nanos).last_received == c.last_received,
        c.with_last_received(nanos).last_received == nanos,
        c.with_last_received(nanos).last_sent == c.last_sent,
{
}

/// Computes the local preference of a candidate of the given type, network
/// type and TCP role.
pub fn local_preference_of(
    candidate_type: CandidateType,
    network_type: NetworkType,
    tcp_type: TcpType,
) -> (p: u16)
    ensures
        p == local_preference_spec(candidate_type, network_type, tcp_type),
{
    if network_type.is_tcp() {
        let other_pref: u16 = 8191;
        let direction_pref: u16 = match candidate_type {
            CandidateType::Host | CandidateType::Relay => match tcp_type {
                TcpType::Active => 6,
                TcpType::Passive => 4,
                TcpType::SimultaneousOpen => 2,
                TcpType::Unspecified => 0,
            },
            CandidateType::PeerReflexive | CandidateType::ServerReflexive => match tcp_type {
                TcpType::SimultaneousOpen => 6,
                TcpType::Active => 4,
                TcpType::Passive => 2,
                TcpType::Unspecified => 0,
            },
        };
        8192 * direction_pref + other_pref
    } else {
        DEFAULT_LOCAL_PREFERENCE
    }
}

/// Computes the priority of a candidate from its type, network type, TCP
/// role and component, or hands back `priority_override` where that is set.
pub fn priority_of(
    candidate_type: CandidateType,
    network_type: NetworkType,
    tcp_type: TcpType,
    component: u16,
    priority_override: u32,
) -> (p: u32)
    ensures
        p == priority_spec(candidate_type, network_type, tcp_type, component, priority_override),
{
    if priority_override != 0 {
        return priority_override;
    }
    let type_preference: u32 = candidate_type.preference() as u32;
    let local_preference: u32 = local_preference_of(candidate_type, network_type, tcp_type) as u32;
    16777216 * type_preference + 256 * local_preference + 256 - (component as u32)
}

/// Derives the foundation of a candidate from its type, network type and
/// address, or hands back `foundation_override` where that is set.
pub fn foundation_of(
    candidate_type: CandidateType,
    network_type: NetworkType,
    address: &str,
    foundation_override: &str,
) -> (s: String)
    ensures
        s@ == foundation_spec(candidate_type, network_type, address@, foundation_override@),
{
    if !foundation_override.is_empty() {
        return String::from_str(foundation_override);
    }
    derive_foundation(candidate_type, network_type, address)
}

/// Classifies the address of a candidate under construction: `ip` is what
/// the address reads as, `None` where it is no literal IP address.
pub fn resolve(network: &str, ip: Option<IpAddress>, port: u16) -> (r: Result<
    (NetworkType, SocketAddress),
    Error,
>)
    ensures
        r == resolve_spec(network@, ip, port),
{
    match ip {
        None => Err(Error::AddressParseFailed),
        Some(ip) => match determine_network_type(network, &ip) {
            Ok(network_type) => Ok((network_type, SocketAddress { ip, port })),
            Err(e) => Err(e),
        },
    }
}

/// Assembles the candidate that `config` describes, with the identifier `id`.
pub fn build_candidate(
    config: CandidateBaseConfig,
    id: String,
    candidate_type: CandidateType,
    network_type: NetworkType,
    resolved_addr: SocketAddress,
    related_address: Option<CandidateRelatedAddress>,
    tcp_type: TcpType,
) -> (c: CandidateBase)
    ensures
        c@ == candidate_from_config(
            config@,
            id@,
            candidate_type,
            network_type,
            resolved_addr,
            related_view(related_address),
            tcp_type,
        ),
{
    CandidateBase {
        id,
        network_type,
        candidate_type,
        component: config.component,
        address: config.address,
        port: config.port,
        related_address,
        tcp_type,
        resolved_addr,
        last_sent: 0,
        last_received: 0,
        foundation_override: config.foundation,
        priority_override: config.priority,
        network: config.network,
    }
}

/// The identifier of a candidate built with the identifier `requested`,
/// where `fresh` is an identifier made for it: `requested` itself, or `fresh`
/// where `requested` is empty.
pub open spec fn chosen_id(requested: Seq<char>, fresh: Seq<char>) -> Seq<char> {
    if requested.len() > 0 {
        requested
    } else {
        fresh
    }
}

/// What construction from `config` gives where `fresh` is the identifier for a
/// candidate that was given none: the error of the resolution, or the
/// candidate that the config, the resolution, the type, the related address
/// and the TCP role describe.
pub open spec fn construct_spec(
    config: CandidateBaseConfigView,
    fresh: Seq<char>,
    resolution: Result<(NetworkType, SocketAddress), Error>,
    candidate_type: CandidateType,
    related_address: Option<RelatedAddressView>,
    tcp_type: TcpType,
) -> Result<CandidateView, Error> {
    match resolution {
        Err(e) => Err(e),
        Ok(found) => Ok(
            candidate_from_config(
                config,
                chosen_id(config.candidate_id, fresh),
                candidate_type,
                found.0,
                found.1,
                related_address,
                tcp_type,
            ),
        ),
    }
}

/// What `construct_spec` gives is what construction gives, where the
/// identifier made for a candidate that needs one has the generated form.
pub proof fn lemma_construct_spec_is_constructed(
    config: CandidateBaseConfigView,
    fresh: Seq<char>,
    resolution: Result<(NetworkType, SocketAddress), Error>,
    candidate_type: CandidateType,
    related_address: Option<RelatedAddressView>,
    tcp_type: TcpType,
)
    requires
        config.candidate_id.len() == 0 && resolution is Ok ==> is_generated_id(fresh),
    ensures
        constructed(
            config,
            resolution,
            candidate_type,
            related_address,
            tcp_type,
            construct_spec(config, fresh, resolution, candidate_type, related_address, tcp_type),
        ),
{
}

/// Builds the candidate that `config` describes where `resolution` holds
/// its network type and resolved address, and hands on the error where it
/// holds one. A config without identifier gets the identifier `fresh`.
pub fn construct_with_id(
    config: CandidateBaseConfig,
    fresh: String,
    resolution: Result<(NetworkType, SocketAddress), Error>,
    candidate_type: CandidateType,
    related_address: Option<CandidateRelatedAddress>,
    tcp_type: TcpType,
) -> (r: Result<CandidateBase, Error>)
    ensures
        outcome_view(r) == construct_spec(
            config@,
            fresh@,
            resolution,
            candidate_type,
            related_view(related_address),
            tcp_type,
        ),
{
    match resolution {
        Err(e) => Err(e),
        Ok((network_type, resolved_addr)) => {
            let id = if config.candidate_id.as_str().is_empty() {
                fresh
            } else {
                config.candidate_id.clone()
            };
            Ok(
                build_candidate(
                    config,
                    id,
                    candidate_type,
                    network_type,
                    resolved_addr,
                    related_address,
                    tcp_type,
                ),
            )
        },
    }
}

/// Builds the candidate that `config` describes where `resolution` holds
/// its network type and resolved address, and hands on the error where it
/// holds one. A config without identifier gets a generated one.
pub fn construct(
    config: CandidateBaseConfig,
    resolution: Result<(NetworkType, SocketAddress), Error>,
    candidate_type: CandidateType,
    related_address: Option<CandidateRelatedAddress>,
    tcp_type: TcpType,
) -> (r: Result<CandidateBase, Error>)
    ensures
        constructed(
            config@,
            resolution,
            candidate_type,
            related_view(related_address),
            tcp_type,
            outcome_view(r),
        ),
{
    let fresh = if config.candidate_id.as_str().is_empty() && resolution.is_ok() {
        generate_cand_id()
    } else {
        String::new()
    };
    proof {
        lemma_construct_spec_is_constructed(
            config@,
            fresh@,
            resolution,
            candidate_type,
            related_view(related_address),
            tcp_type,
        );
    }
    construct_with_id(config, fresh, resolution, candidate_type, related_address, tcp_type)
}

impl Default for CandidateBase {
    fn default() -> (c: CandidateBase)
        ensures
            c@ == CandidateView::initial(),
    {
        CandidateBase {
            id: String::new(),
            network_type: NetworkType::Udp4,
            candidate_type: CandidateType::Host,
            component: 1,
            address: String::new(),
            port: 0,
            related_address: None,
            tcp_type: TcpType::Unspecified,
            resolved_addr: SocketAddress { ip: IpAddress::V4(0), port: 0 },
            last_sent: 0,
            last_received: 0,
            foundation_override: String::new(),
            priority_override: 0,
            network: String::new(),
        }
    }
}

impl CandidateBase {
    /// The foundation of the candidate.
    pub fn foundation(&self) -> (s: String)
        ensures
            s@ == self@.foundation(),
    {
        foundation_of(
            self.candidate_type,
            self.network_type,
            self.address.as_str(),
            self.foundation_override.as_str(),
        )
    }

    /// The identifier of the candidate.
    pub fn id(&self) -> (s: String)
        ensures
            s@ == self@.id,
    {
        self.id.clone()
    }

    /// The component that the candidate is for.
    pub fn component(&self) -> (c: u16)
        ensures
            c == self@.component,
    {
        self.component
    }

    /// Moves the candidate to another component.
    pub fn set_component(&mut self, component: u16)
        ensures
            *final(self) == (CandidateBase { component, ..*old(self) }),
    {
        self.component = component;
    }

    /// When something was last received on this candidate, in nanoseconds
    /// since the epoch.
    pub fn last_received(&self) -> (t: u64)
        ensures
            t == self@.last_received,
    {
        self.last_received
    }

    /// When something was last sent from this candidate, in nanoseconds since
    /// the epoch.
    pub fn last_sent(&self) -> (t: u64)
        ensures
            t == self@.last_sent,
    {
        self.last_sent
    }

    /// Records that something was received on this candidate `nanos`
    /// nanoseconds after the epoch.
    pub fn set_last_received(&mut self, nanos: u64)
        ensures
            *final(self) == (CandidateBase { last_received: nanos, ..*old(self) }),
            final(self)@ == old(self)@.with_last_received(nanos),
    {
        self.last_received = nanos;
    }

    /// Records that something was sent from this candidate `nanos`
    /// nanoseconds after the epoch.
    pub fn set_last_sent(&mut self, nanos: u64)
        ensures
            *final(self) == (CandidateBase { last_sent: nanos, ..*old(self) }),
            final(self)@ == old(self)@.with_last_sent(nanos),
    {
        self.last_sent = nanos;
    }

    /// Transport and IP version of the candidate.
    pub fn network_type(&self) -> (t: NetworkType)
        ensures
            t == self@.network_type,
    {
        self.network_type
    }

    /// The address of the candidate, as text.
    pub fn address(&self) -> (s: String)
        ensures
            s@ == self@.address,
    {
        self.address.clone()
    }

    /// The port of the candidate.
    pub fn port(&self) -> (p: u16)
        ensures
            p == self@.port,
    {
        self.port
    }

    /// The local preference of the candidate.
    pub fn local_preference(&self) -> (p: u16)
        ensures
            p == self@.local_preference(),
    {
        local_preference_of(self.candidate_type, self.network_type, self.tcp_type)
    }

    /// The priority of the candidate.
    pub fn priority(&self) -> (p: u32)
        ensures
            p == self@.priority(),
    {
        priority_of(
            self.candidate_type,
            self.network_type,
            self.tcp_type,
            self.component,
            self.priority_override,
        )
    }

    /// The address that the candidate was derived from, if it has one.
    pub fn related_address(&self) -> (r: Option<CandidateRelatedAddress>)
        ensures
            related_view(r) == self@.related_address,
    {
        match &self.related_address {
            Some(related) => Some(related.clone()),
            None => None,
        }
    }

    /// How the address of the candidate was learned.
    pub fn candidate_type(&self) -> (t: CandidateType)
        ensures
            t == self@.candidate_type,
    {
        self.candidate_type
    }

    /// The role of the candidate in opening a TCP connection.
    pub fn tcp_type(&self) -> (t: TcpType)
        ensures
            t == self@.tcp_type,
    {
        self.tcp_type
    }

    /// The address and port that the candidate resolves to.
    pub fn addr(&self) -> (a: SocketAddress)
        ensures
            a == self@.resolved_addr,
    {
        self.resolved_addr
    }

    /// Whether this candidate and `other` count as the same candidate.
    pub fn equal(&self, other: &CandidateBase) -> (b: bool)
        ensures
            b == self@.equal(other@),
    {
        let same_related = match (&self.related_address, &other.related_address) {
            (Some(a), Some(b)) => a.address == b.address && a.port == b.port,
            (None, None) => true,
            _ => false,
        };
        proof {
            if same_related && self@.related_address is Some {
                assert(self@.related_address->0 == other@.related_address->0);
            }
        }
        self.network_type == other.network_type && self.candidate_type == other.candidate_type
            && self.address == other.address && self.port == other.port && self.component
            == other.component && self.tcp_type == other.tcp_type && same_related
    }

    /// Writes the candidate as text for the signaling channel.
    pub fn marshal(&self) -> (s: String)
        ensures
            s@ == self@.marshal(),
    {
        let mut val = self.foundation();
        val.append(" ");
        val.append(decimal_string(self.component as u64).as_str());
        val.append(" ");
        val.append(self.network_type.network_short().as_str());
        val.append(" ");
        val.append(decimal_string(self.priority() as u64).as_str());
        val.append(" ");
        val.append(self.address.as_str());
        val.append(" ");
        val.append(decimal_string(self.port as u64).as_str());
        val.append(" ");
        val.append("typ");
        val.append(" ");
        val.append(self.candidate_type.to_string().as_str());
        assert(val@ == self@.marshal_head());
        if let Some(related) = &self.related_address {
            val.append(" ");
            val.append("raddr");
            val.append(" ");
            val.append(related.address.as_str());
            val.append(" ");
            val.append("rport");
            val.append(" ");
            val.append(decimal_string(related.port as u64).as_str());
        }
        assert(val@ == self@.marshal_related(self@.marshal_head()));
        if self.network_type.is_tcp() && self.tcp_type != TcpType::Unspecified {
            val.append(" ");
            val.append("tcptype");
            val.append(" ");
            val.append(self.tcp_type.to_string().as_str());
        }
        val
    }

    /// Describes the candidate for diagnostics: network type, candidate type,
    /// address and port, and the related address where there is one.
    pub fn to_string(&self) -> (s: String)
        ensures
            s@ == self@.description(),
    {
        let mut val = self.network_type.to_string();
        val.append(" ");
        val.append(self.candidate_type.to_string().as_str());
        val.append(" ");
        val.append(self.address.as_str());
        val.append(":");
        val.append(decimal_string(self.port as u64).as_str());
        if let Some(related) = &self.related_address {
            val.append(related.to_string().as_str());
        } else {
            assert(val@ + Seq::<char>::empty() =~= val@);
        }
        val
    }

    /// Takes `ip` as the address that the candidate resolves to: the network
    /// type follows the IP version of `ip`, the resolved address becomes `ip`
    /// with the candidate's port. Where the candidate's transport token has no
    /// network type, nothing changes.
    pub fn set_ip(&mut self, ip: &IpAddress) -> (r: Result<(), Error>)
        ensures
            match determine_network_type_spec(old(self)@.network, *ip) {
                Ok(network_type) => r is Ok && *final(self) == (CandidateBase {
                    network_type,
                    resolved_addr: SocketAddress { ip: *ip, port: old(self).port },
                    ..*old(self)
                }),
                Err(e) => r == Err::<(), Error>(e) && *final(self) == *old(self),
            },
    {
        match determine_network_type(self.network.as_str(), ip) {
            Ok(network_type) => {
                self.network_type = network_type;
                self.resolved_addr = SocketAddress { ip: *ip, port: self.port };
                Ok(())
            },
            Err(e) => Err(e),
        }
    }
}

} // verus!
