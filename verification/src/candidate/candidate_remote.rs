//! Candidates of the peer: reading a candidate's text, and construction from
//! what was read.

use vstd::prelude::*;
use crate::candidate::candidate_base::CandidateBase;
use crate::candidate::candidate_base::CandidateBaseConfig;
use crate::candidate::candidate_base::CandidateBaseConfigView;
use crate::candidate::candidate_base::CandidateView;
use crate::candidate::candidate_base::construct;
use crate::candidate::candidate_base::constructed;
use crate::candidate::candidate_base::lemma_computed_priority_bounds;
use crate::candidate::candidate_base::outcome_view;
use crate::candidate::candidate_base::resolve;
use crate::candidate::candidate_base::resolve_spec;
use crate::candidate::candidate_host::is_local_name;
use crate::candidate::candidate_host::resolve_host;
use crate::candidate::candidate_host::resolve_host_spec;
use crate::candidate::CandidateRelatedAddress;
use crate::candidate::CandidateType;
use crate::candidate::related_view;
use crate::candidate::RelatedAddressView;
use crate::decimal::decimal;
use crate::decimal::lemma_decimal_is_word;
use crate::decimal::lemma_parse_decimal;
use crate::decimal::parse_unsigned;
use crate::decimal::parse_unsigned_spec;
use crate::error::Error;
use crate::foundation::lemma_derived_foundation_is_word;
use crate::network_type::IpAddress;
use crate::network_type::lemma_short_name_is_transport;
use crate::network_type::NetworkType;
use crate::network_type::SocketAddress;
use crate::tcp_type::TcpType;
use crate::words::is_word;
use crate::words::lemma_split_append_blank_word;
use crate::words::lemma_split_gives_words;
use crate::words::lemma_split_single_word;
use crate::words::split_whitespace;
use crate::words::to_chars;
use crate::words::word_bounds;
use crate::words::word_is;
use crate::words::words_at;

verus! {

/// What the text of a candidate says: the config from which the candidate of
/// the peer is built.
#[derive(Debug)]
pub struct CandidateRemoteConfig {
    /// Transport token, address, port, component, and foundation and priority
    /// as the peer stated them. The identifier is empty.
    pub base_config: CandidateBaseConfig,
    /// How the address was learned.
    pub candidate_type: CandidateType,
    /// The related address, where the text holds one.
    pub related_address: Option<CandidateRelatedAddress>,
    /// The role in opening a TCP connection, where the text holds one.
    pub tcp_type: TcpType,
}

/// What a remote config holds.
pub struct CandidateRemoteConfigView {
    /// What all construction configs share.
    pub base_config: CandidateBaseConfigView,
    /// How the address was learned.
    pub candidate_type: CandidateType,
    /// The related address, where the text holds one.
    pub related_address: Option<RelatedAddressView>,
    /// The role in opening a TCP connection, where the text holds one.
    pub tcp_type: TcpType,
}

impl View for CandidateRemoteConfig {
    type V = CandidateRemoteConfigView;

    open spec fn view(&self) -> CandidateRemoteConfigView {
        CandidateRemoteConfigView {
            base_config: self.base_config@,
            candidate_type: self.candidate_type,
            related_address: related_view(self.related_address),
            tcp_type: self.tcp_type,
        }
    }
}

/// The related address that the words behind the candidate type state.
///
/// `raddr` must be followed by an address, `rport` and a port. `rport` in
/// the place of `raddr` is malformed. Any other word, or none, means that
/// there is no related address.
pub open spec fn related_address_spec(rest: Seq<Seq<char>>) -> Result<
    Option<RelatedAddressView>,
    Error,
> {
    if rest.len() > 0 && rest[0] == "raddr"@ {
        if rest.len() < 4 || rest[2] != "rport"@ {
            Err(Error::UnmarshalMalformed)
        } else {
            match parse_unsigned_spec(rest[3], 65535) {
                Ok(port) => Ok(Some(RelatedAddressView { address: rest[1], port: port as u16 })),
                Err(e) => Err(e),
            }
        }
    } else if rest.len() > 0 && rest[0] == "rport"@ {
        Err(Error::UnmarshalMalformed)
    } else {
        Ok(None)
    }
}

/// The TCP role that the words behind the related address state.
///
/// `tcptype` must be followed by a word, which names the role; a word that
/// names none leaves the role unspecified, as does any other word in the place
/// of `tcptype`.
pub open spec fn tcp_type_spec(rest: Seq<Seq<char>>) -> Result<TcpType, Error> {
    if rest.len() > 0 && rest[0] == "tcptype"@ {
        if rest.len() < 2 {
            Err(Error::UnmarshalMalformed)
        } else {
            Ok(TcpType::from_name(rest[1]))
        }
    } else {
        Ok(TcpType::Unspecified)
    }
}

/// What the six leading words of a candidate's text say.
///
/// The words are, in this order: foundation, component, transport, priority,
/// address and port. Component and port must be numbers of at most 16 bits,
/// the priority one of at most 32 bits; the first of them that is not gives
/// the error.
pub open spec fn base_config_spec(words: Seq<Seq<char>>) -> Result<CandidateBaseConfigView, Error>
    recommends
        words.len() >= 6,
{
    match parse_unsigned_spec(words[1], 65535) {
        Err(e) => Err(e),
        Ok(component) => match parse_unsigned_spec(words[3], 4294967295) {
            Err(e) => Err(e),
            Ok(priority) => match parse_unsigned_spec(words[5], 65535) {
                Err(e) => Err(e),
                Ok(port) => Ok(
                    CandidateBaseConfigView {
                        candidate_id: Seq::empty(),
                        network: words[2],
                        address: words[4],
                        port: port as u16,
                        component: component as u16,
                        priority: priority as u32,
                        foundation: words[0],
                    },
                ),
            },
        },
    }
}

/// Where the words on the TCP role start: behind the four words of the
/// related address where there is one, else behind the candidate type.
pub open spec fn tcp_type_at(related_address: Option<RelatedAddressView>) -> int {
    if related_address is Some {
        12
    } else {
        8
    }
}

/// What the text `raw` of a candidate says, or why it says nothing.
///
/// The text is taken word by word:
/// `<foundation> <component> <transport> <priority> <address> <port> typ
/// <type>`, then `raddr <address> rport <port>` or nothing, then `tcptype
/// <role>` or nothing, then anything. Fewer than eight words are malformed.
/// The seventh word is not looked at. The numbers are read first, then the
/// related address, then the TCP role, then the candidate type, and the first
/// of them that fails gives the error.
pub open spec fn unmarshal_spec(raw: Seq<char>) -> Result<CandidateRemoteConfigView, Error> {
    let words = split_whitespace(raw);
    if words.len() < 8 {
        Err(Error::UnmarshalMalformed)
    } else {
        match base_config_spec(words) {
            Err(e) => Err(e),
            Ok(base_config) => match related_address_spec(words.skip(8)) {
                Err(e) => Err(e),
                Ok(related_address) => match tcp_type_spec(
                    words.skip(tcp_type_at(related_address)),
                ) {
                    Err(e) => Err(e),
                    Ok(tcp_type) => match CandidateType::from_name(words[7]) {
                        None => Err(Error::UnmarshalMalformed),
                        Some(candidate_type) => Ok(
                            CandidateRemoteConfigView {
                                base_config,
                                candidate_type,
                                related_address,
                                tcp_type,
                            },
                        ),
                    },
                },
            },
        }
    }
}

/// The config inside a result of reading, as what it holds.
pub open spec fn config_view(r: Result<CandidateRemoteConfig, Error>) -> Result<
    CandidateRemoteConfigView,
    Error,
> {
    match r {
        Ok(c) => Ok(c@),
        Err(e) => Err(e),
    }
}

fn word_string(raw: &str, start: usize, end: usize) -> (s: String)
    requires
        start <= end <= raw@.len(),
    ensures
        s@ == raw@.subrange(start as int, end as int),
{
    String::from_str(raw.substring_char(start, end))
}

fn candidate_type_of(chars: &Vec<char>, start: usize, end: usize) -> (t: Option<CandidateType>)
    requires
        start <= end <= chars.len(),
    ensures
        t == CandidateType::from_name(chars@.subrange(start as int, end as int)),
{
    if word_is(chars, start, end, "host") {
        Some(CandidateType::Host)
    } else if word_is(chars, start, end, "srflx") {
        Some(CandidateType::ServerReflexive)
    } else if word_is(chars, start, end, "prflx") {
        Some(CandidateType::PeerReflexive)
    } else if word_is(chars, start, end, "relay") {
        Some(CandidateType::Relay)
    } else {
        None
    }
}

/// Reads the text of a candidate as it came over the signaling channel.
pub fn unmarshal_candidate(raw: &str) -> (r: Result<CandidateRemoteConfig, Error>)
    ensures
        config_view(r) == unmarshal_spec(raw@),
{
    let chars = to_chars(raw);
    let bounds = word_bounds(&chars);
    let ghost words = split_whitespace(raw@);
    assert(words == words_at(chars@, bounds@));
    assert forall|k: int| 0 <= k < bounds.len() implies (#[trigger] bounds[k]).0 <= bounds[k].1
        <= chars.len() && words[k] == chars@.subrange(bounds[k].0 as int, bounds[k].1 as int) by {
        assert(words_at(chars@, bounds@)[k] == chars@.subrange(
            bounds[k].0 as int,
            bounds[k].1 as int,
        ));
    }
    let count = bounds.len();
    if count < 8 {
        return Err(Error::UnmarshalMalformed);
    }
    let component: u16 = match parse_unsigned(&chars, bounds[1].0, bounds[1].1, 65535) {
        Ok(v) => v as u16,
        Err(e) => {
            return Err(e);
        },
    };
    let priority: u32 = match parse_unsigned(&chars, bounds[3].0, bounds[3].1, 4294967295) {
        Ok(v) => v as u32,
        Err(e) => {
            return Err(e);
        },
    };
    let port: u16 = match parse_unsigned(&chars, bounds[5].0, bounds[5].1, 65535) {
        Ok(v) => v as u16,
        Err(e) => {
            return Err(e);
        },
    };
    assert(base_config_spec(words) is Ok);

    let ghost rest = words.skip(8);
    assert(rest.len() == count - 8);
    assert forall|k: int| 0 <= k < rest.len() implies #[trigger] rest[k] == words[k + 8] by {}
    let mut related_address: Option<CandidateRelatedAddress> = None;
    let mut next: usize = 8;
    if count > 8 {
        assert(rest[0] == words[8]);
        if word_is(&chars, bounds[8].0, bounds[8].1, "raddr") {
            if count < 12 {
                return Err(Error::UnmarshalMalformed);
            }
            assert(rest[1] == words[9]);
            assert(rest[2] == words[10]);
            assert(rest[3] == words[11]);
            if !word_is(&chars, bounds[10].0, bounds[10].1, "rport") {
                return Err(Error::UnmarshalMalformed);
            }
            let related_port: u16 = match parse_unsigned(
                &chars,
                bounds[11].0,
                bounds[11].1,
                65535,
            ) {
                Ok(v) => v as u16,
                Err(e) => {
                    return Err(e);
                },
            };
            related_address = Some(
                CandidateRelatedAddress {
                    address: word_string(raw, bounds[9].0, bounds[9].1),
                    port: related_port,
                },
            );
            next = 12;
        } else if word_is(&chars, bounds[8].0, bounds[8].1, "rport") {
            return Err(Error::UnmarshalMalformed);
        }
    }
    let ghost related = related_view(related_address);
    assert(related_address_spec(rest) == Ok::<Option<RelatedAddressView>, Error>(related));
    assert(next == tcp_type_at(related));

    let ghost tail = words.skip(next as int);
    assert(tail.len() == count - next);
    assert forall|k: int| 0 <= k < tail.len() implies #[trigger] tail[k] == words[k + next] by {}
    let mut tcp_type = TcpType::Unspecified;
    if count > next {
        assert(tail[0] == words[next as int]);
        if word_is(&chars, bounds[next].0, bounds[next].1, "tcptype") {
            if count < next + 2 {
                return Err(Error::UnmarshalMalformed);
            }
            assert(tail[1] == words[next + 1]);
            tcp_type = TcpType::from(raw.substring_char(bounds[next + 1].0, bounds[next + 1].1));
        }
    }
    assert(tcp_type_spec(tail) == Ok::<TcpType, Error>(tcp_type));

    let candidate_type = match candidate_type_of(&chars, bounds[7].0, bounds[7].1) {
        Some(t) => t,
        None => {
            return Err(Error::UnmarshalMalformed);
        },
    };
    Ok(
        CandidateRemoteConfig {
            base_config: CandidateBaseConfig {
                candidate_id: String::new(),
                network: word_string(raw, bounds[2].0, bounds[2].1),
                address: word_string(raw, bounds[4].0, bounds[4].1),
                port,
                component,
                priority,
                foundation: word_string(raw, bounds[0].0, bounds[0].1),
            },
            candidate_type,
            related_address,
            tcp_type,
        },
    )
}

/// Network type and resolved address of the candidate of a peer: those of a
/// host candidate where it is one, and else those of every other candidate.
pub open spec fn resolve_remote_spec(
    candidate_type: CandidateType,
    network: Seq<char>,
    address: Seq<char>,
    ip: Option<IpAddress>,
    port: u16,
) -> Result<(NetworkType, SocketAddress), Error> {
    if candidate_type is Host {
        resolve_host_spec(network, address, ip, port)
    } else {
        resolve_spec(network, ip, port)
    }
}

impl CandidateRemoteConfig {
    /// Creates the candidate that the text of a peer described.
    ///
    /// `ip` is what the address of the config reads as: `None` where it is no
    /// literal IP address. Type, related address and TCP role are those of the
    /// config; foundation and priority of the config stand in place of the
    /// derived ones.
    pub fn new_candidate_remote(self, ip: Option<IpAddress>) -> (r: Result<CandidateBase, Error>)
        ensures
            constructed(
                self@.base_config,
                resolve_remote_spec(
                    self@.candidate_type,
                    self@.base_config.network,
                    self@.base_config.address,
                    ip,
                    self@.base_config.port,
                ),
                self@.candidate_type,
                self@.related_address,
                self@.tcp_type,
                outcome_view(r),
            ),
    {
        let resolution = match self.candidate_type {
            CandidateType::Host => resolve_host(
                self.base_config.network.as_str(),
                self.base_config.address.as_str(),
                ip,
                self.base_config.port,
            ),
            _ => resolve(self.base_config.network.as_str(), ip, self.base_config.port),
        };
        construct(
            self.base_config,
            resolution,
            self.candidate_type,
            self.related_address,
            self.tcp_type,
        )
    }
}

/// What a text says is made of words of the text: foundation, transport
/// token, address and related address are each one word, and so a candidate
/// built from them can be written and read back.
///
/// `config` is what the text `raw` says, and `back` any candidate that
/// construction from `config` can give.
pub proof fn lemma_unmarshal_gives_words(
    raw: Seq<char>,
    config: CandidateRemoteConfigView,
    ip: Option<IpAddress>,
    back: CandidateView,
)
    requires
        unmarshal_spec(raw) == Ok::<CandidateRemoteConfigView, Error>(config),
        constructed(
            config.base_config,
            resolve_remote_spec(
                config.candidate_type,
                config.base_config.network,
                config.base_config.address,
                ip,
                config.base_config.port,
            ),
            config.candidate_type,
            config.related_address,
            config.tcp_type,
            Ok(back),
        ),
    ensures
        is_word(config.base_config.foundation),
        is_word(config.base_config.network),
        is_word(config.base_config.address),
        config.related_address matches Some(related) ==> is_word(related.address),
        back.is_marshalable(),
{
    let words = split_whitespace(raw);
    lemma_split_gives_words(raw);
    assert(is_word(words[0]));
    assert(is_word(words[2]));
    assert(is_word(words[4]));
    let rest = words.skip(8);
    if related_address_spec(rest) matches Ok(Some(related)) {
        assert(rest[1] == words[9]);
        assert(is_word(words[9]));
    }
}

/// What the text of the candidate `c` says: the fields that it shows, with
/// foundation and priority as the candidate reports them, and the TCP role
/// only where it shows.
pub open spec fn wire_config(c: CandidateView) -> CandidateRemoteConfigView {
    CandidateRemoteConfigView {
        base_config: CandidateBaseConfigView {
            candidate_id: Seq::empty(),
            network: c.network_type.short_name(),
            address: c.address,
            port: c.port,
            component: c.component,
            priority: c.priority() as u32,
            foundation: c.foundation(),
        },
        candidate_type: c.candidate_type,
        related_address: c.related_address,
        tcp_type: if c.shows_tcp_type() {
            c.tcp_type
        } else {
            TcpType::Unspecified
        },
    }
}

proof fn lemma_words_push(text: Seq<char>, word: Seq<char>, words: Seq<Seq<char>>)
    requires
        split_whitespace(text) == words,
        is_word(word),
    ensures
        split_whitespace(text + " "@ + word) == words.push(word),
{
    reveal_strlit(" ");
    assert(" "@ =~= seq![' ']);
    lemma_split_append_blank_word(text, word);
}

proof fn lemma_keywords_are_words()
    ensures
        is_word("typ"@),
        is_word("raddr"@),
        is_word("rport"@),
        is_word("tcptype"@),
        is_word("udp"@),
        is_word("tcp"@),
        is_word("host"@),
        is_word("srflx"@),
        is_word("prflx"@),
        is_word("relay"@),
        is_word("active"@),
        is_word("passive"@),
        is_word("so"@),
        is_word("unspecified"@),
        "tcptype"@ != "raddr"@,
        "tcptype"@ != "rport"@,
{
    reveal_strlit("typ");
    reveal_strlit("raddr");
    reveal_strlit("rport");
    reveal_strlit("tcptype");
    reveal_strlit("udp");
    reveal_strlit("tcp");
    reveal_strlit("host");
    reveal_strlit("srflx");
    reveal_strlit("prflx");
    reveal_strlit("relay");
    reveal_strlit("active");
    reveal_strlit("passive");
    reveal_strlit("so");
    reveal_strlit("unspecified");
    assert("tcptype"@.len() == 7);
    assert("raddr"@.len() == 5);
    assert("rport"@.len() == 5);
}

/// The eight leading words of a candidate's text are its eight leading
/// fields.
proof fn lemma_words_of_head(c: CandidateView)
    requires
        c.is_marshalable(),
    ensures
        split_whitespace(c.marshal_head()) == seq![
            c.foundation(),
            decimal(c.component as nat),
            c.network_type.short_name(),
            decimal(c.priority()),
            c.address,
            decimal(c.port as nat),
            "typ"@,
            c.candidate_type.name(),
        ],
{
    lemma_keywords_are_words();
    lemma_derived_foundation_is_word(c.candidate_type, c.network_type, c.address);
    lemma_decimal_is_word(c.component as nat);
    lemma_decimal_is_word(c.priority());
    lemma_decimal_is_word(c.port as nat);
    let w0 = c.foundation();
    let w1 = decimal(c.component as nat);
    let w2 = c.network_type.short_name();
    let w3 = decimal(c.priority());
    let w4 = c.address;
    let w5 = decimal(c.port as nat);
    let w6 = "typ"@;
    let w7 = c.candidate_type.name();
    let t0 = w0;
    let t1 = t0 + " "@ + w1;
    let t2 = t1 + " "@ + w2;
    let t3 = t2 + " "@ + w3;
    let t4 = t3 + " "@ + w4;
    let t5 = t4 + " "@ + w5;
    let t6 = t5 + " "@ + w6;
    let t7 = t6 + " "@ + w7;
    lemma_split_single_word(w0);
    lemma_words_push(t0, w1, seq![w0]);
    lemma_words_push(t1, w2, seq![w0].push(w1));
    lemma_words_push(t2, w3, seq![w0].push(w1).push(w2));
    lemma_words_push(t3, w4, seq![w0].push(w1).push(w2).push(w3));
    lemma_words_push(t4, w5, seq![w0].push(w1).push(w2).push(w3).push(w4));
    lemma_words_push(t5, w6, seq![w0].push(w1).push(w2).push(w3).push(w4).push(w5));
    lemma_words_push(t6, w7, seq![w0].push(w1).push(w2).push(w3).push(w4).push(w5).push(w6));
    assert(t7 == c.marshal_head());
    assert(seq![w0].push(w1).push(w2).push(w3).push(w4).push(w5).push(w6).push(w7) =~= seq![
        w0,
        w1,
        w2,
        w3,
        w4,
        w5,
        w6,
        w7,
    ]);
}

/// The words of a candidate's text: the eight leading fields, then the four
/// words of the related address where there is one, then the two words of
/// the TCP role where it shows.
pub open spec fn marshal_words(c: CandidateView) -> Seq<Seq<char>> {
    let head = seq![
        c.foundation(),
        decimal(c.component as nat),
        c.network_type.short_name(),
        decimal(c.priority()),
        c.address,
        decimal(c.port as nat),
        "typ"@,
        c.candidate_type.name(),
    ];
    let related = match c.related_address {
        Some(related) => seq!["raddr"@, related.address, "rport"@, decimal(related.port as nat)],
        None => Seq::empty(),
    };
    let role = if c.shows_tcp_type() {
        seq!["tcptype"@, c.tcp_type.name()]
    } else {
        Seq::empty()
    };
    head + related + role
}

/// Taken word by word, the text of a candidate is the sequence of its
/// fields.
pub proof fn lemma_words_of_marshal(c: CandidateView)
    requires
        c.is_marshalable(),
    ensures
        split_whitespace(c.marshal()) == marshal_words(c),
{
    lemma_keywords_are_words();
    lemma_words_of_head(c);
    let head = c.marshal_head();
    let head_words = split_whitespace(head);
    let with_related = c.marshal_related(head);
    let related_words: Seq<Seq<char>> = match c.related_address {
        Some(related) => seq!["raddr"@, related.address, "rport"@, decimal(related.port as nat)],
        None => Seq::empty(),
    };
    assert(split_whitespace(with_related) =~= head_words + related_words) by {
        match c.related_address {
            Some(related) => {
                lemma_decimal_is_word(related.port as nat);
                let r0 = head + " "@ + "raddr"@;
                let r1 = r0 + " "@ + related.address;
                let r2 = r1 + " "@ + "rport"@;
                let r3 = r2 + " "@ + decimal(related.port as nat);
                lemma_words_push(head, "raddr"@, head_words);
                lemma_words_push(r0, related.address, head_words.push("raddr"@));
                lemma_words_push(r1, "rport"@, head_words.push("raddr"@).push(related.address));
                lemma_words_push(
                    r2,
                    decimal(related.port as nat),
                    head_words.push("raddr"@).push(related.address).push("rport"@),
                );
                assert(r3 == with_related);
            },
            None => {},
        }
    }
    let role_words: Seq<Seq<char>> = if c.shows_tcp_type() {
        seq!["tcptype"@, c.tcp_type.name()]
    } else {
        Seq::empty()
    };
    assert(split_whitespace(c.marshal()) =~= head_words + related_words + role_words) by {
        if c.shows_tcp_type() {
            let s0 = with_related + " "@ + "tcptype"@;
            let s1 = s0 + " "@ + c.tcp_type.name();
            lemma_words_push(with_related, "tcptype"@, head_words + related_words);
            lemma_words_push(s0, c.tcp_type.name(), (head_words + related_words).push("tcptype"@));
            assert(s1 == c.marshal());
        }
    }
}

/// Reading the text of a candidate gives the fields that the text shows:
/// nothing is lost but the TCP role where it does not show, and the IP version
/// of the network type.
pub proof fn lemma_unmarshal_of_marshal(c: CandidateView)
    requires
        c.is_marshalable(),
    ensures
        unmarshal_spec(c.marshal()) == Ok::<CandidateRemoteConfigView, Error>(wire_config(c)),
{
    lemma_keywords_are_words();
    lemma_words_of_marshal(c);
    let words = split_whitespace(c.marshal());
    assert(words.len() >= 8);
    lemma_parse_decimal(c.component as nat, 65535);
    lemma_computed_priority_bounds(c.candidate_type, c.network_type, c.tcp_type, c.component);
    lemma_parse_decimal(c.priority(), 4294967295);
    lemma_parse_decimal(c.port as nat, 65535);
    c.candidate_type.lemma_from_name_of_name();
    c.tcp_type.lemma_from_name_of_name();
    let rest = words.skip(8);
    match c.related_address {
        Some(related) => {
            lemma_parse_decimal(related.port as nat, 65535);
            assert(rest[0] == words[8]);
            assert(rest[2] == words[10]);
            assert(rest[3] == words[11]);
            assert(rest[1] == words[9]);
            assert(related_address_spec(rest) == Ok::<Option<RelatedAddressView>, Error>(
                Some(related),
            ));
            let tail = words.skip(12);
            if c.shows_tcp_type() {
                assert(tail[0] == words[12]);
                assert(tail[1] == words[13]);
            }
        },
        None => {
            if c.shows_tcp_type() {
                assert(rest[0] == words[8]);
                assert(rest[1] == words[9]);
            }
            assert(related_address_spec(rest) == Ok::<Option<RelatedAddressView>, Error>(None));
        },
    }
}

/// Writing a candidate, reading the text and building the candidate that it
/// describes gives a candidate with the same text, and with the same type,
/// address, port, component, related address, foundation and priority.
///
/// `back` is any candidate that construction from the text of `c` can give,
/// where `ip` is what the address of `c` reads as. It is of the transport of
/// `c`, and of the IP version of `ip` unless it is a host candidate under a
/// name of the local link. Where it has the network type of `c`, and the TCP
/// role of `c` shows in the text or is unspecified, `back` and `c` count as
/// the same candidate.
pub proof fn lemma_marshal_round_trip(c: CandidateView, ip: Option<IpAddress>, back: CandidateView)
    requires
        c.is_marshalable(),
        constructed(
            wire_config(c).base_config,
            resolve_remote_spec(
                c.candidate_type,
                c.network_type.short_name(),
                c.address,
                ip,
                c.port,
            ),
            c.candidate_type,
            c.related_address,
            wire_config(c).tcp_type,
            Ok(back),
        ),
    ensures
        unmarshal_spec(c.marshal()) == Ok::<CandidateRemoteConfigView, Error>(wire_config(c)),
        back.marshal() == c.marshal(),
        back.candidate_type == c.candidate_type,
        back.address == c.address,
        back.port == c.port,
        back.component == c.component,
        back.related_address == c.related_address,
        back.foundation() == c.foundation(),
        back.priority() == c.priority(),
        back.network_type.short_name() == c.network_type.short_name(),
        back.network_type is Udp4 || back.network_type is Udp6 <==> c.network_type is Udp4
            || c.network_type is Udp6,
        ip is Some && !(c.candidate_type is Host && is_local_name(c.address)) ==> (
        back.network_type is Udp4 || back.network_type is Tcp4 <==> ip->0 is V4),
        back.network_type == c.network_type && (c.shows_tcp_type() || c.tcp_type
            == TcpType::Unspecified) ==> back.equal(c),
{
    lemma_unmarshal_of_marshal(c);
    lemma_computed_priority_bounds(c.candidate_type, c.network_type, c.tcp_type, c.component);
    lemma_derived_foundation_is_word(c.candidate_type, c.network_type, c.address);
    lemma_short_name_is_transport(c.network_type, IpAddress::V4(0));
    if ip is Some {
        lemma_short_name_is_transport(c.network_type, ip->0);
    }
    assert(back.shows_tcp_type() == c.shows_tcp_type());
    assert(back.marshal_head() == c.marshal_head());
}

} // verus!
