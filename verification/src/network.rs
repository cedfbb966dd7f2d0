//! The network detector: field checkers for the destination port and address
//! of a connection, and their aggregation with protocol and direction.

use vstd::prelude::*;
use crate::rules::{
    first_match, first_matching, lemma_first_match_bounds, pattern_matches, table_of, Matching,
    Rule, Weighted,
};
use crate::level::{cap, capped};
use crate::text::{chars_of, same_text, starts_with};

verus! {

/// Ports of remote shells, remote desktops and common back doors.
pub open spec fn high_risk_ports() -> Seq<int> {
    seq![22, 23, 3389, 4444, 5555, 6666, 7777, 8888, 9999]
}

/// Ports of common services.
pub open spec fn medium_risk_ports() -> Seq<int> {
    seq![21, 25, 53, 80, 135, 139, 443, 445, 993, 995]
}

/// What a port of `high_risk_ports` contributes.
pub const HIGH_RISK_PORT_WEIGHT: i32 = 6;

/// What a port of `medium_risk_ports` contributes.
pub const MEDIUM_RISK_PORT_WEIGHT: i32 = 3;

/// What any other port strictly between 10000 and 65535 contributes.
pub const HIGH_PORT_WEIGHT: i32 = 2;

/// The contribution of a destination port.
pub open spec fn port_weight(port: int) -> int {
    if high_risk_ports().contains(port) {
        HIGH_RISK_PORT_WEIGHT as int
    } else if medium_risk_ports().contains(port) {
        MEDIUM_RISK_PORT_WEIGHT as int
    } else if 10000 < port < 65535 {
        HIGH_PORT_WEIGHT as int
    } else {
        0
    }
}

/// The prefixes of private addresses, written out one second octet at a time.
pub open spec fn private_prefixes() -> Seq<Seq<char>> {
    seq![
        "10."@,
        "192.168."@,
        "172.16."@,
        "172.17."@,
        "172.18."@,
        "172.19."@,
        "172.20."@,
        "172.21."@,
        "172.22."@,
        "172.23."@,
        "172.24."@,
        "172.25."@,
        "172.26."@,
        "172.27."@,
        "172.28."@,
        "172.29."@,
        "172.30."@,
        "172.31."@,
    ]
}

/// An address is private where it begins with one of `private_prefixes`.
pub open spec fn is_private(ip: Seq<char>) -> bool {
    exists|i: int| 0 <= i < private_prefixes().len() && starts_with(ip, #[trigger] private_prefixes()[i])
}

/// The prefixes of address ranges that count although they are private.
pub open spec fn suspicious_range_table() -> Seq<Weighted> {
    seq![
        Weighted { pattern: "10.0.0."@, weight: 2 },
        Weighted { pattern: "192.168.1."@, weight: 2 },
    ]
}

/// What a public address contributes.
pub const PUBLIC_ADDRESS_WEIGHT: i32 = 4;

/// An address is public where it is not private and is neither the loopback
/// address `127.0.0.1` nor the unspecified address `0.0.0.0`.
pub open spec fn is_public(ip: Seq<char>) -> bool {
    !is_private(ip) && ip != "127.0.0.1"@ && ip != "0.0.0.0"@
}

/// The contribution of a destination address: 4 for a public one; for any
/// other the weight of the first prefix of `suspicious_range_table` that it
/// begins with, 0 where it begins with none.
pub open spec fn ip_weight(ip: Seq<char>) -> int {
    if is_public(ip) {
        PUBLIC_ADDRESS_WEIGHT as int
    } else {
        match first_match(Matching::StartsWith, ip, suspicious_range_table()) {
            Some(weight) => weight,
            None => 0,
        }
    }
}

/// The numbers that a list of ports holds.
pub open spec fn ports_of(ports: Seq<i32>) -> Seq<int> {
    ports.map_values(|port: i32| port as int)
}

/// Whether `port` is one of `ports`.
pub fn is_listed(ports: &[i32], port: i32) -> (listed: bool)
    ensures
        listed == ports_of(ports@).contains(port as int),
{
    let mut i: usize = 0;
    while i < ports.len()
        invariant
            i <= ports@.len(),
            forall|j: int| 0 <= j < i ==> ports@[j] != port,
        decreases ports@.len() - i,
    {
        if ports[i] == port {
            assert(ports_of(ports@)[i as int] == port);
            return true;
        }
        i += 1;
    }
    assert forall|j: int| 0 <= j < ports_of(ports@).len() implies ports_of(ports@)[j] != port by {
        assert(ports@[j] != port);
    }
    false
}

/// Scores a destination port.
pub fn check_suspicious_port(port: i32) -> (weight: i32)
    ensures
        weight == port_weight(port as int),
{
    let high_risk: [i32; 9] = [22, 23, 3389, 4444, 5555, 6666, 7777, 8888, 9999];
    let medium_risk: [i32; 10] = [21, 25, 53, 80, 135, 139, 443, 445, 993, 995];
    assert(ports_of(high_risk@) =~= high_risk_ports());
    assert(ports_of(medium_risk@) =~= medium_risk_ports());
    if is_listed(&high_risk, port) {
        HIGH_RISK_PORT_WEIGHT
    } else if is_listed(&medium_risk, port) {
        MEDIUM_RISK_PORT_WEIGHT
    } else if port > 10000 && port < 65535 {
        HIGH_PORT_WEIGHT
    } else {
        0
    }
}

/// `suspicious_range_table` as rules.
pub fn suspicious_range_rules() -> (rules: Vec<Rule>)
    ensures
        table_of(rules@) == suspicious_range_table(),
{
    let rules = vec![
        Rule { pattern: "10.0.0.", weight: 2 },
        Rule { pattern: "192.168.1.", weight: 2 },
    ];
    assert(table_of(rules@) =~= suspicious_range_table());
    rules
}

/// Whether the address `text` is private.
fn is_private_text(text: &[char]) -> (private: bool)
    ensures
        private == is_private(text@),
{
    let prefixes: [&str; 18] = [
        "10.",
        "192.168.",
        "172.16.",
        "172.17.",
        "172.18.",
        "172.19.",
        "172.20.",
        "172.21.",
        "172.22.",
        "172.23.",
        "172.24.",
        "172.25.",
        "172.26.",
        "172.27.",
        "172.28.",
        "172.29.",
        "172.30.",
        "172.31.",
    ];
    assert(prefixes@.len() == private_prefixes().len());
    assert(forall|j: int| 0 <= j < prefixes@.len() ==> prefixes@[j]@ == private_prefixes()[j]);
    let mut i: usize = 0;
    while i < prefixes.len()
        invariant
            i <= prefixes@.len() == private_prefixes().len(),
            forall|j: int| 0 <= j < prefixes@.len() ==> prefixes@[j]@ == private_prefixes()[j],
            forall|j: int| 0 <= j < i ==> !starts_with(text@, #[trigger] private_prefixes()[j]),
        decreases prefixes@.len() - i,
    {
        if pattern_matches(Matching::StartsWith, text, prefixes[i]) {
            assert(starts_with(text@, private_prefixes()[i as int]));
            return true;
        }
        i += 1;
    }
    false
}

/// Whether the address `ip` is private.
pub fn is_private_ip(ip: &str) -> (private: bool)
    ensures
        private == is_private(ip@),
{
    let text = chars_of(ip);
    is_private_text(text.as_slice())
}

/// Scores a destination address.
pub fn check_suspicious_ip(ip: &str) -> (weight: i32)
    ensures
        weight == ip_weight(ip@),
{
    let text = chars_of(ip);
    let loopback = chars_of("127.0.0.1");
    let unspecified = chars_of("0.0.0.0");
    if !is_private_text(text.as_slice()) && !same_text(text.as_slice(), loopback.as_slice())
        && !same_text(text.as_slice(), unspecified.as_slice()) {
        return PUBLIC_ADDRESS_WEIGHT;
    }
    let rules = suspicious_range_rules();
    match first_matching(Matching::StartsWith, text.as_slice(), rules.as_slice()) {
        Some(weight) => weight,
        None => 0,
    }
}

/// The protocol that counts against a connection.
pub open spec fn suspicious_protocol() -> Seq<char> {
    "tcp"@
}

/// What the protocol `tcp` contributes.
pub const TCP_WEIGHT: i32 = 1;

/// The contribution of the protocol of a connection.
pub open spec fn protocol_weight(text: Seq<char>) -> int {
    if text == suspicious_protocol() {
        TCP_WEIGHT as int
    } else {
        0
    }
}

/// The direction that counts against a connection.
pub open spec fn suspicious_direction() -> Seq<char> {
    "outbound"@
}

/// What an outbound connection contributes.
pub const OUTBOUND_WEIGHT: i32 = 2;

/// The contribution of the direction of a connection.
pub open spec fn direction_weight(text: Seq<char>) -> int {
    if text == suspicious_direction() {
        OUTBOUND_WEIGHT as int
    } else {
        0
    }
}

/// Scores the protocol of a connection.
pub fn check_suspicious_protocol(protocol: &str) -> (weight: i32)
    ensures
        weight == protocol_weight(protocol@),
{
    let text = chars_of(protocol);
    let tcp = chars_of("tcp");
    if same_text(text.as_slice(), tcp.as_slice()) {
        TCP_WEIGHT
    } else {
        0
    }
}

/// Scores the direction of a connection.
pub fn check_suspicious_direction(direction: &str) -> (weight: i32)
    ensures
        weight == direction_weight(direction@),
{
    let text = chars_of(direction);
    let outbound = chars_of("outbound");
    if same_text(text.as_slice(), outbound.as_slice()) {
        OUTBOUND_WEIGHT
    } else {
        0
    }
}

/// A network event: the fields of a connection that the detector reads. A
/// field that the event does not carry is `None`. The port is the number as
/// the event gives it: one that is no port at all is on no list and in no
/// range, and contributes nothing.
#[derive(Clone, Copy, Debug, PartialEq, Eq)]
pub struct NetworkEvent<'a> {
    pub dest_port: Option<i64>,
    pub dest_ip: Option<&'a str>,
    pub protocol: Option<&'a str>,
    pub direction: Option<&'a str>,
}

/// The mathematical content of a network event.
pub struct NetworkFacts {
    pub dest_port: Option<i64>,
    pub dest_ip: Option<Seq<char>>,
    pub protocol: Option<Seq<char>>,
    pub direction: Option<Seq<char>>,
}

impl<'a> View for NetworkEvent<'a> {
    type V = NetworkFacts;

    open spec fn view(&self) -> NetworkFacts {
        NetworkFacts {
            dest_port: self.dest_port,
            dest_ip: self.dest_ip.deep_view(),
            protocol: self.protocol.deep_view(),
            direction: self.direction.deep_view(),
        }
    }
}

/// The sum of the contributions of the fields of a network event. An absent
/// field contributes 0.
pub open spec fn network_raw_score(facts: NetworkFacts) -> int {
    (match facts.dest_port {
        Some(port) => port_weight(port as int),
        None => 0,
    }) + (match facts.dest_ip {
        Some(text) => ip_weight(text),
        None => 0,
    }) + (match facts.protocol {
        Some(text) => protocol_weight(text),
        None => 0,
    }) + (match facts.direction {
        Some(text) => direction_weight(text),
        None => 0,
    })
}

/// The threat level of a network event: its raw score, capped at 10.
pub open spec fn network_threat(facts: NetworkFacts) -> int {
    capped(network_raw_score(facts))
}

/// The contribution of a destination address is never negative.
pub proof fn lemma_ip_weight_bounded(ip: Seq<char>)
    ensures
        0 <= ip_weight(ip) <= 4,
{
    lemma_first_match_bounds(Matching::StartsWith, ip, suspicious_range_table(), 0, 2);
}

/// The threat level of a network event lies between 0 and 10.
pub proof fn lemma_network_threat_bounded(facts: NetworkFacts)
    ensures
        0 <= network_threat(facts) <= 10,
{
    if let Some(ip) = facts.dest_ip {
        lemma_ip_weight_bounded(ip);
    }
}

/// Scores a network event.
pub fn detect_network_threat(event: &NetworkEvent) -> (level: i32)
    ensures
        level == network_threat(event@),
        0 <= level <= 10,
{
    proof {
        lemma_network_threat_bounded(event@);
    }
    let mut raw: i128 = 0;
    if let Some(port) = event.dest_port {
        if i32::MIN as i64 <= port && port <= i32::MAX as i64 {
            raw += check_suspicious_port(port as i32) as i128;
        }
    }
    if let Some(ip) = event.dest_ip {
        raw += check_suspicious_ip(ip) as i128;
    }
    if let Some(protocol) = event.protocol {
        raw += check_suspicious_protocol(protocol) as i128;
    }
    if let Some(direction) = event.direction {
        raw += check_suspicious_direction(direction) as i128;
    }
    cap(raw)
}

} // verus!
