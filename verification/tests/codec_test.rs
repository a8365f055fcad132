use ice::candidate::candidate_base::CandidateBase;
use ice::candidate::candidate_remote::unmarshal_candidate;
use ice::candidate::{CandidateRelatedAddress, CandidateType, COMPONENT_RTCP, COMPONENT_RTP};
use ice::error::Error;
use ice::network_type::{IpAddress, NetworkType, SocketAddress};
use ice::tcp_type::TcpType;

const V4: Option<IpAddress> = Some(IpAddress::V4(0x0A00_0001));
const V6: Option<IpAddress> = Some(IpAddress::V6(1));

fn error_of(raw: &str) -> Error {
    unmarshal_candidate(raw).unwrap_err()
}

#[test]
fn test_unmarshal_fields() {
    let config = unmarshal_candidate("f00 2 TCP 77 10.0.0.1 9 typ relay").unwrap();
    assert_eq!(config.base_config.foundation, "f00");
    assert_eq!(config.base_config.component, 2);
    assert_eq!(config.base_config.network, "TCP");
    assert_eq!(config.base_config.priority, 77);
    assert_eq!(config.base_config.address, "10.0.0.1");
    assert_eq!(config.base_config.port, 9);
    assert_eq!(config.base_config.candidate_id, "");
    assert_eq!(config.candidate_type, CandidateType::Relay);
    assert!(config.related_address.is_none());
    assert_eq!(config.tcp_type, TcpType::Unspecified);
}

#[test]
fn test_unmarshal_every_type() {
    for (name, want) in [
        ("host", CandidateType::Host),
        ("srflx", CandidateType::ServerReflexive),
        ("prflx", CandidateType::PeerReflexive),
        ("relay", CandidateType::Relay),
    ] {
        let raw = format!("1 1 udp 1 10.0.0.1 1 typ {}", name);
        assert_eq!(unmarshal_candidate(&raw).unwrap().candidate_type, want);
    }
}

#[test]
fn test_unmarshal_related_address_and_tcp_type() {
    let config =
        unmarshal_candidate("1 1 tcp 1 10.0.0.1 1 typ srflx raddr 10.0.0.2 rport 7 tcptype so")
            .unwrap();
    let related = config.related_address.unwrap();
    assert_eq!(related.address, "10.0.0.2");
    assert_eq!(related.port, 7);
    assert_eq!(config.tcp_type, TcpType::SimultaneousOpen);

    let config = unmarshal_candidate("1 1 tcp 1 10.0.0.1 1 typ host tcptype passive").unwrap();
    assert!(config.related_address.is_none());
    assert_eq!(config.tcp_type, TcpType::Passive);

    let config = unmarshal_candidate("1 1 tcp 1 10.0.0.1 1 typ host tcptype sideways").unwrap();
    assert_eq!(config.tcp_type, TcpType::Unspecified);
}

#[test]
fn test_unmarshal_ignores_trailing_extensions() {
    let config = unmarshal_candidate(
        "1986380506 1 udp 2122063615 10.0.75.1 53634 typ host generation 0 network-id 2",
    )
    .unwrap();
    assert_eq!(config.candidate_type, CandidateType::Host);
    assert!(config.related_address.is_none());
    assert_eq!(config.tcp_type, TcpType::Unspecified);

    let config = unmarshal_candidate(
        "4207374051 1 udp 1685790463 191.228.238.68 53991 typ srflx raddr 192.168.0.27 rport 53991 generation 0 network-id 3",
    )
    .unwrap();
    assert_eq!(config.related_address.unwrap().address, "192.168.0.27");
    assert_eq!(config.tcp_type, TcpType::Unspecified);

    let config =
        unmarshal_candidate("1 1 tcp 1 10.0.0.1 1 typ host tcptype active ufrag abc").unwrap();
    assert_eq!(config.tcp_type, TcpType::Active);
}

#[test]
fn test_unmarshal_any_white_space_separates() {
    let config = unmarshal_candidate("  1\t1  udp\u{A0}1 10.0.0.1\n1 typ host \r\n").unwrap();
    assert_eq!(config.base_config.foundation, "1");
    assert_eq!(config.base_config.address, "10.0.0.1");
    assert_eq!(config.candidate_type, CandidateType::Host);
}

#[test]
fn test_unmarshal_malformed() {
    assert_eq!(error_of(""), Error::UnmarshalMalformed);
    assert_eq!(error_of("1938809241"), Error::UnmarshalMalformed);
    assert_eq!(error_of("1 1 udp 1 10.0.0.1 1 typ"), Error::UnmarshalMalformed);
    assert_eq!(error_of("1 INVALID udp 1 10.0.0.1 1 typ host"), Error::UnmarshalMalformed);
    assert_eq!(error_of("1 1 udp INVALID 10.0.0.1 1 typ host"), Error::UnmarshalMalformed);
    assert_eq!(error_of("1 1 udp 1 10.0.0.1 INVALID typ host"), Error::UnmarshalMalformed);
    assert_eq!(error_of("1 1 udp 1 10.0.0.1 1 typ INVALID"), Error::UnmarshalMalformed);
    assert_eq!(error_of("1 1 udp 1 10.0.0.1 1 typ HOST"), Error::UnmarshalMalformed);
    assert_eq!(error_of("1 -1 udp 1 10.0.0.1 1 typ host"), Error::UnmarshalMalformed);
}

#[test]
fn test_unmarshal_incomplete_related_address() {
    let head = "1 1 udp 1 10.0.0.1 1 typ srflx";
    for tail in [
        "raddr",
        "raddr 10.0.0.2",
        "raddr 10.0.0.2 rport",
        "raddr 10.0.0.2 port 7",
        "raddr 10.0.0.2 generation 0",
        "raddr 10.0.0.2 rport x",
        "rport 7",
        "rport 7 raddr 10.0.0.2",
    ] {
        let raw = format!("{} {}", head, tail);
        assert_eq!(error_of(&raw), Error::UnmarshalMalformed, "text {:?}", raw);
    }
    for tail in ["tcptype"] {
        let raw = format!("{} {}", head, tail);
        assert_eq!(error_of(&raw), Error::UnmarshalMalformed, "text {:?}", raw);
    }
    let raw = format!("{} raddr 10.0.0.2 rport 7 tcptype", head);
    assert_eq!(error_of(&raw), Error::UnmarshalMalformed);
}

#[test]
fn test_unmarshal_out_of_range() {
    assert_eq!(error_of("1 65536 udp 1 10.0.0.1 1 typ host"), Error::UnmarshalOutOfRange);
    assert_eq!(error_of("1 1 udp 4294967296 10.0.0.1 1 typ host"), Error::UnmarshalOutOfRange);
    assert_eq!(error_of("1 1 udp 1 10.0.0.1 65536 typ host"), Error::UnmarshalOutOfRange);
    assert_eq!(
        error_of("1 1 udp 1 10.0.0.1 1 typ srflx raddr 10.0.0.2 rport 65536"),
        Error::UnmarshalOutOfRange
    );
    assert!(unmarshal_candidate("1 65535 udp 4294967295 10.0.0.1 65535 typ host").is_ok());
}

#[test]
fn test_unmarshal_first_failure_decides() {
    // The component is read before the priority, the numbers before the type.
    assert_eq!(error_of("1 70000 udp x 10.0.0.1 1 typ host"), Error::UnmarshalOutOfRange);
    assert_eq!(error_of("1 x udp 99999999999 10.0.0.1 1 typ host"), Error::UnmarshalMalformed);
    assert_eq!(error_of("1 1 udp 1 10.0.0.1 70000 typ nothing"), Error::UnmarshalOutOfRange);
    assert_eq!(
        error_of("1 1 udp 1 10.0.0.1 1 typ nothing raddr 10.0.0.2 rport 70000"),
        Error::UnmarshalOutOfRange
    );
}

#[test]
fn test_remote_candidate_keeps_what_the_peer_stated() {
    let candidate = unmarshal_candidate("750 2 udp 500 10.0.0.1 53987 typ host")
        .unwrap()
        .new_candidate_remote(V4)
        .unwrap();
    assert_eq!(candidate.foundation(), "750");
    assert_eq!(candidate.priority(), 500);
    assert_eq!(candidate.foundation_override, "750");
    assert_eq!(candidate.priority_override, 500);
    assert_eq!(candidate.component(), COMPONENT_RTCP);
    assert_eq!(candidate.network_type(), NetworkType::Udp4);
    assert_eq!(candidate.network, "udp");
    assert_eq!(candidate.last_sent(), 0);
    assert_eq!(candidate.last_received(), 0);
    assert_eq!(candidate.addr(), SocketAddress { ip: IpAddress::V4(0x0A00_0001), port: 53987 });
    assert!(candidate.id().starts_with("candidate:"));
}

#[test]
fn test_remote_candidate_with_priority_zero_computes_it() {
    let candidate = unmarshal_candidate("750 1 udp 0 10.0.0.1 53987 typ host")
        .unwrap()
        .new_candidate_remote(V4)
        .unwrap();
    assert_eq!(candidate.priority(), 2130706431);
}

#[test]
fn test_remote_candidate_network_type() {
    let raw = "1 1 tcp 1 ::1 1 typ host tcptype active";
    let candidate = unmarshal_candidate(raw).unwrap().new_candidate_remote(V6).unwrap();
    assert_eq!(candidate.network_type(), NetworkType::Tcp6);
    assert_eq!(candidate.tcp_type(), TcpType::Active);
    assert_eq!(candidate.marshal(), raw);

    let raw = "1 1 UDP 1 10.0.0.1 1 typ prflx";
    let candidate = unmarshal_candidate(raw).unwrap().new_candidate_remote(V4).unwrap();
    assert_eq!(candidate.network_type(), NetworkType::Udp4);
    assert_eq!(candidate.marshal(), "1 1 udp 1 10.0.0.1 1 typ prflx");
}

#[test]
fn test_remote_candidate_construction_failures() {
    let config = unmarshal_candidate("1 1 udp 1 not-an-address 1 typ host").unwrap();
    assert_eq!(config.new_candidate_remote(None).unwrap_err(), Error::AddressParseFailed);

    let config = unmarshal_candidate("1 1 sctp 1 10.0.0.1 1 typ host").unwrap();
    assert_eq!(config.new_candidate_remote(V4).unwrap_err(), Error::UnsupportedNetworkType);

    let config = unmarshal_candidate("1 1 sctp 1 name.local 1 typ host").unwrap();
    assert_eq!(config.new_candidate_remote(None).unwrap_err(), Error::UnsupportedNetworkType);

    // Only a host candidate may go by a name of the local link.
    let config = unmarshal_candidate("1 1 udp 1 name.local 1 typ srflx").unwrap();
    assert_eq!(config.new_candidate_remote(None).unwrap_err(), Error::AddressParseFailed);
}

#[test]
fn test_remote_host_by_local_name() {
    let candidate = unmarshal_candidate("1 1 tcp 1 name.local 1 typ host tcptype passive")
        .unwrap()
        .new_candidate_remote(None)
        .unwrap();
    assert_eq!(candidate.network_type(), NetworkType::Tcp4);
    assert_eq!(candidate.addr(), SocketAddress { ip: IpAddress::V4(0), port: 0 });
    assert_eq!(candidate.marshal(), "1 1 tcp 1 name.local 1 typ host tcptype passive");
}

#[test]
fn test_marshal_computed_fields() {
    let candidate = CandidateBase {
        network_type: NetworkType::Udp4,
        candidate_type: CandidateType::Host,
        address: "10.0.75.1".to_owned(),
        port: 53634,
        ..Default::default()
    };
    assert_eq!(
        candidate.marshal(),
        "11049048046048046055053046049 1 udp 2130706431 10.0.75.1 53634 typ host"
    );
}

#[test]
fn test_marshal_order_of_extensions() {
    let candidate = CandidateBase {
        network_type: NetworkType::Tcp6,
        candidate_type: CandidateType::Relay,
        component: COMPONENT_RTCP,
        address: "::1".to_owned(),
        port: 5000,
        related_address: Some(CandidateRelatedAddress { address: "::2".to_owned(), port: 5001 }),
        tcp_type: TcpType::SimultaneousOpen,
        foundation_override: "abc".to_owned(),
        priority_override: 9,
        ..Default::default()
    };
    assert_eq!(
        candidate.marshal(),
        "abc 2 tcp 9 ::1 5000 typ relay raddr ::2 rport 5001 tcptype so"
    );
}

#[test]
fn test_marshal_hides_tcp_type_over_udp() {
    let candidate = CandidateBase {
        network_type: NetworkType::Udp4,
        candidate_type: CandidateType::Host,
        address: "10.0.0.1".to_owned(),
        tcp_type: TcpType::Active,
        foundation_override: "f".to_owned(),
        priority_override: 1,
        ..Default::default()
    };
    assert_eq!(candidate.marshal(), "f 1 udp 1 10.0.0.1 0 typ host");

    let candidate = CandidateBase {
        network_type: NetworkType::Tcp4,
        tcp_type: TcpType::Unspecified,
        ..candidate
    };
    assert_eq!(candidate.marshal(), "f 1 tcp 1 10.0.0.1 0 typ host");
}

#[test]
fn test_marshal_round_trip() {
    let types = [
        CandidateType::Host,
        CandidateType::PeerReflexive,
        CandidateType::ServerReflexive,
        CandidateType::Relay,
    ];
    let networks = [
        (NetworkType::Udp4, V4),
        (NetworkType::Udp6, V6),
        (NetworkType::Tcp4, V4),
        (NetworkType::Tcp6, V6),
    ];
    let roles =
        [TcpType::Unspecified, TcpType::Active, TcpType::Passive, TcpType::SimultaneousOpen];
    for candidate_type in types {
        for (network_type, ip) in networks {
            for tcp_type in roles {
                for related in [false, true] {
                    for overridden in [false, true] {
                        let candidate = CandidateBase {
                            network_type,
                            candidate_type,
                            component: COMPONENT_RTP,
                            address: "10.0.0.1".to_owned(),
                            port: 4242,
                            related_address: if related {
                                Some(CandidateRelatedAddress {
                                    address: "192.168.0.1".to_owned(),
                                    port: 17,
                                })
                            } else {
                                None
                            },
                            tcp_type,
                            foundation_override: if overridden {
                                "+/Az09".to_owned()
                            } else {
                                String::new()
                            },
                            priority_override: if overridden { 12345 } else { 0 },
                            ..Default::default()
                        };
                        let text = candidate.marshal();
                        let back = unmarshal_candidate(&text)
                            .unwrap()
                            .new_candidate_remote(ip)
                            .unwrap();
                        assert_eq!(back.marshal(), text);
                        assert_eq!(back.candidate_type(), candidate.candidate_type());
                        assert_eq!(back.network_type(), candidate.network_type());
                        assert_eq!(back.address(), candidate.address());
                        assert_eq!(back.port(), candidate.port());
                        assert_eq!(back.component(), candidate.component());
                        assert_eq!(back.foundation(), candidate.foundation());
                        assert_eq!(back.priority(), candidate.priority());
                        assert_eq!(
                            back.related_address().map(|r| (r.address, r.port)),
                            candidate.related_address().map(|r| (r.address, r.port))
                        );
                        if network_type.is_tcp() {
                            assert_eq!(back.tcp_type(), candidate.tcp_type());
                            assert!(back.equal(&candidate));
                        } else {
                            assert_eq!(back.tcp_type(), TcpType::Unspecified);
                        }
                    }
                }
            }
        }
    }
}

#[test]
fn test_marshal_of_empty_words_does_not_read_back() {
    let candidate = CandidateBase {
        candidate_type: CandidateType::ServerReflexive,
        address: "10.0.0.1".to_owned(),
        related_address: Some(CandidateRelatedAddress { address: String::new(), port: 0 }),
        foundation_override: "f".to_owned(),
        priority_override: 1,
        ..Default::default()
    };
    let text = candidate.marshal();
    assert_eq!(text, "f 1 udp 1 10.0.0.1 0 typ srflx raddr  rport 0");
    assert_eq!(error_of(&text), Error::UnmarshalMalformed);

    let candidate =
        CandidateBase { foundation_override: "f".to_owned(), priority_override: 1, ..Default::default() };
    let text = candidate.marshal();
    assert_eq!(text, "f 1 udp 1  0 typ host");
    assert_eq!(error_of(&text), Error::UnmarshalMalformed);
}
