//! Configuration: the entries read from the file, the lookup tables built
//! from them, and the immutable snapshot the workers share.

use crate::action::Transport;
use crate::addr::{Ipv4, SockAddr};
use crate::log::join;
use crate::parse::parse_text;
use std::collections::HashMap;
use vstd::prelude::*;
use vstd::string::*;

verus! {

broadcast use vstd::std_specs::hash::group_hash_axioms;

/// Where traffic for one destination port is sent.
#[derive(Clone, Copy, Debug, PartialEq, Eq, Structural)]
pub struct Upstream {
    pub ip: Ipv4,
    pub port: u16,
}

impl Upstream {
    /// The upstream as a socket address.
    pub open spec fn spec_addr(self) -> SockAddr {
        SockAddr { ip: self.ip, port: self.port }
    }

    #[verifier::when_used_as_spec(spec_addr)]
    pub fn addr(self) -> (addr: SockAddr)
        ensures
            addr == self.spec_addr(),
    {
        SockAddr { ip: self.ip, port: self.port }
    }
}

/// One forwarding rule of the configuration file: traffic first addressed
/// to `orig_port` goes to `upstream_ip:upstream_port`.
#[derive(Clone, Copy, Debug, PartialEq, Eq, Structural)]
pub struct FileEntry {
    pub upstream_ip: Ipv4,
    pub upstream_port: u16,
    pub orig_port: u16,
}

impl FileEntry {
    pub open spec fn spec_upstream(self) -> Upstream {
        Upstream { ip: self.upstream_ip, port: self.upstream_port }
    }

    /// The upstream this rule names.
    #[verifier::when_used_as_spec(spec_upstream)]
    pub fn upstream(self) -> (upstream: Upstream)
        ensures
            upstream == self.spec_upstream(),
    {
        Upstream { ip: self.upstream_ip, port: self.upstream_port }
    }
}

/// The configuration file: the listen port and the rules of each transport.
#[derive(Clone, Debug, PartialEq, Eq)]
pub struct FileConfig {
    pub port: u16,
    pub udp: Vec<FileEntry>,
    pub tcp: Vec<FileEntry>,
}

/// The table a list of rules stands for. Rules are applied in order, so
/// where two name the same destination port the later one decides.
pub open spec fn table_of(entries: Seq<FileEntry>) -> Map<u16, Upstream>
    decreases entries.len(),
{
    if entries.len() == 0 {
        Map::empty()
    } else {
        table_of(entries.drop_last()).insert(
            entries.last().orig_port,
            entries.last().spec_upstream(),
        )
    }
}

/// Whether no two rules send the same destination port to different
/// upstreams.
pub open spec fn consistent(entries: Seq<FileEntry>) -> bool {
    forall|i: int, j: int|
        0 <= i < entries.len() && 0 <= j < entries.len() && entries[i].orig_port
            == entries[j].orig_port ==> entries[i] == entries[j]
}

/// Whether rule `i` of `entries` names `port`.
pub open spec fn names(entries: Seq<FileEntry>, i: int, port: u16) -> bool {
    0 <= i < entries.len() && entries[i].orig_port == port
}

/// A port is in the table exactly when some rule names it.
pub proof fn lemma_table_of_domain(entries: Seq<FileEntry>, port: u16)
    ensures
        table_of(entries).contains_key(port) <==> exists|i: int| names(entries, i, port),
    decreases entries.len(),
{
    if entries.len() > 0 {
        let front = entries.drop_last();
        lemma_table_of_domain(front, port);
        if entries.last().orig_port == port {
            assert(names(entries, entries.len() - 1, port));
        } else {
            if table_of(front).contains_key(port) {
                let i = choose|i: int| names(front, i, port);
                assert(names(entries, i, port));
            }
            if exists|i: int| names(entries, i, port) {
                let i = choose|i: int| names(entries, i, port);
                assert(names(front, i, port));
            }
        }
    } else {
        assert forall|i: int| !names(entries, i, port) by {}
    }
}

/// A port maps to the upstream of the last rule that names it.
pub proof fn lemma_table_of_value(entries: Seq<FileEntry>, port: u16, i: int)
    requires
        names(entries, i, port),
        forall|j: int| i < j ==> !names(entries, j, port),
    ensures
        table_of(entries).contains_key(port),
        table_of(entries)[port] == entries[i].spec_upstream(),
    decreases entries.len(),
{
    let front = entries.drop_last();
    if i == entries.len() - 1 {
    } else {
        assert(!names(entries, entries.len() - 1, port));
        assert(names(front, i, port));
        assert forall|j: int| i < j implies !names(front, j, port) by {
            if names(front, j, port) {
                assert(names(entries, j, port));
            }
        }
        lemma_table_of_value(front, port, i);
    }
}

/// In a consistent list every rule decides its own port: the table maps
/// the rule's port to the rule's upstream, wherever the rule stands.
pub proof fn lemma_table_of_consistent(entries: Seq<FileEntry>, i: int)
    requires
        consistent(entries),
        0 <= i < entries.len(),
    ensures
        table_of(entries).contains_key(entries[i].orig_port),
        table_of(entries)[entries[i].orig_port] == entries[i].spec_upstream(),
    decreases entries.len(),
{
    let front = entries.drop_last();
    if entries.last().orig_port == entries[i].orig_port {
        assert(entries[entries.len() - 1] == entries[i]);
    } else {
        assert(front[i] == entries[i]);
        assert forall|a: int, b: int|
            0 <= a < front.len() && 0 <= b < front.len() && front[a].orig_port
                == front[b].orig_port implies front[a] == front[b] by {
            assert(front[a] == entries[a] && front[b] == entries[b]);
        }
        lemma_table_of_consistent(front, i);
    }
}

/// Rules form a set: two consistent lists with the same rules, in any
/// order and with any repetition, stand for the same table.
pub proof fn lemma_rules_are_a_set(first: Seq<FileEntry>, second: Seq<FileEntry>)
    requires
        consistent(first),
        consistent(second),
        first.to_set() == second.to_set(),
    ensures
        table_of(first) == table_of(second),
{
    let one = table_of(first);
    let two = table_of(second);
    assert forall|port: u16| one.dom().contains(port) == two.dom().contains(port) by {
        if one.contains_key(port) {
            lemma_one_way(first, second, port);
        }
        if two.contains_key(port) {
            lemma_one_way(second, first, port);
        }
    }
    assert(one.dom() =~= two.dom());
    assert forall|port: u16| #[trigger] one.dom().contains(port) implies one[port] == two[port] by {
        lemma_one_way(first, second, port);
    }
    assert(one =~= two);
}

proof fn lemma_one_way(first: Seq<FileEntry>, second: Seq<FileEntry>, port: u16)
    requires
        consistent(first),
        consistent(second),
        first.to_set() == second.to_set(),
        table_of(first).contains_key(port),
    ensures
        table_of(second).contains_key(port),
        table_of(second)[port] == table_of(first)[port],
{
    lemma_table_of_domain(first, port);
    let i = choose|i: int| names(first, i, port);
    assert(first.contains(first[i]));
    assert(first.to_set().contains(first[i]));
    assert(second.to_set().contains(first[i]));
    assert(second.contains(first[i]));
    let j = choose|j: int| 0 <= j < second.len() && second[j] == first[i];
    lemma_table_of_consistent(first, i);
    lemma_table_of_consistent(second, j);
}

/// A lookup table from the destination port a client addressed to the
/// upstream that serves it. Fixed once built.
#[derive(Debug, PartialEq, Eq)]
pub struct ForwarderMap {
    table: HashMap<u16, Upstream>,
}

impl View for ForwarderMap {
    type V = Map<u16, Upstream>;

    closed spec fn view(&self) -> Map<u16, Upstream> {
        self.table@
    }
}

impl ForwarderMap {
    /// Builds the table that `entries` stand for.
    pub fn from_entries(entries: &Vec<FileEntry>) -> (map: ForwarderMap)
        ensures
            map@ == table_of(entries@),
    {
        let mut table: HashMap<u16, Upstream> = HashMap::new();
        let mut i: usize = 0;
        while i < entries.len()
            invariant
                i <= entries.len(),
                table@ == table_of(entries@.take(i as int)),
            decreases entries.len() - i,
        {
            let entry = entries[i];
            table.insert(entry.orig_port, entry.upstream());
            proof {
                assert(entries@.take(i + 1).drop_last() == entries@.take(i as int));
            }
            i += 1;
        }
        proof {
            assert(entries@.take(i as int) == entries@);
        }
        ForwarderMap { table }
    }

    /// The upstream for `port`, if the table has one.
    pub fn get(&self, port: u16) -> (found: Option<Upstream>)
        ensures
            found == if self@.contains_key(port) {
                Some(self@[port])
            } else {
                None::<Upstream>
            },
    {
        match self.table.get(&port) {
            Some(upstream) => Some(*upstream),
            None => None,
        }
    }

    /// Number of ports the table serves.
    pub fn len(&self) -> (len: usize)
        ensures
            len == self@.len(),
    {
        self.table.len()
    }

    /// Whether the two tables serve the same ports from the same upstreams.
    pub fn same_as(&self, other: &ForwarderMap) -> (same: bool)
        ensures
            same == (self@ == other@),
    {
        let mut port: u16 = 0;
        loop
            invariant
                forall|p: u16| p < port ==> agree_on(self@, other@, p),
            ensures
                forall|p: u16| agree_on(self@, other@, p),
            decreases u16::MAX - port,
        {
            let agree = match self.get(port) {
                Some(mine) => match other.get(port) {
                    Some(theirs) => mine == theirs,
                    None => false,
                },
                None => other.get(port).is_none(),
            };
            if !agree {
                assert(!agree_on(self@, other@, port));
                return false;
            }
            assert(agree_on(self@, other@, port));
            if port == u16::MAX {
                break ;
            }
            port += 1;
        }
        proof {
            assert forall|p: u16| self@.dom().contains(p) == other@.dom().contains(p) by {
                assert(agree_on(self@, other@, p));
            }
            assert(self@.dom() =~= other@.dom());
            assert forall|p: u16| #[trigger] self@.dom().contains(p) implies self@[p] == other@[p] by {
                assert(agree_on(self@, other@, p));
            }
            assert(self@ =~= other@);
        }
        true
    }
}

/// Whether two tables say the same of `port`: both lack it, or both map it
/// to the same upstream.
pub open spec fn agree_on(first: Map<u16, Upstream>, second: Map<u16, Upstream>, port: u16) -> bool {
    (first.contains_key(port) <==> second.contains_key(port)) && (first.contains_key(port)
        ==> first[port] == second[port])
}

/// What a snapshot says, as mathematical values.
pub struct Snapshot {
    pub listen_port: u16,
    pub udp: Map<u16, Upstream>,
    pub tcp: Map<u16, Upstream>,
}

/// The snapshot a configuration file stands for.
pub open spec fn snapshot_of(file: FileConfig) -> Snapshot {
    Snapshot { listen_port: file.port, udp: table_of(file.udp@), tcp: table_of(file.tcp@) }
}

/// The configuration a worker runs on: the listen port and one table per
/// transport. A snapshot is never changed after it is built; a reload
/// builds a new one.
#[derive(Debug, PartialEq, Eq)]
pub struct RuntimeConfig {
    pub listen_port: u16,
    pub udp_map: ForwarderMap,
    pub tcp_map: ForwarderMap,
}

impl View for RuntimeConfig {
    type V = Snapshot;

    open spec fn view(&self) -> Snapshot {
        Snapshot { listen_port: self.listen_port, udp: self.udp_map@, tcp: self.tcp_map@ }
    }
}

impl RuntimeConfig {
    /// Builds the snapshot that `file` stands for.
    pub fn from_file(file: &FileConfig) -> (config: RuntimeConfig)
        ensures
            config@ == snapshot_of(*file),
    {
        RuntimeConfig {
            listen_port: file.port,
            udp_map: ForwarderMap::from_entries(&file.udp),
            tcp_map: ForwarderMap::from_entries(&file.tcp),
        }
    }

    /// Structural equality: same listen port and same two tables.
    pub fn same_as(&self, other: &RuntimeConfig) -> (same: bool)
        ensures
            same == (self@ == other@),
    {
        self.listen_port == other.listen_port && self.udp_map.same_as(&other.udp_map)
            && self.tcp_map.same_as(&other.tcp_map)
    }
}

/// One forwarding rule as the configuration file spells it, with the
/// upstream address still as text.
#[derive(Clone, Debug, PartialEq, Eq)]
pub struct Forwarders {
    pub upstream_ip: String,
    pub upstream_port: u16,
    pub orig_port: u16,
}

/// The configuration file as it is spelled.
#[derive(Clone, Debug, PartialEq, Eq)]
pub struct Configs {
    pub port: u16,
    pub udp: Vec<Forwarders>,
    pub tcp: Vec<Forwarders>,
}

/// Why a configuration cannot be used.
#[derive(Debug, PartialEq, Eq)]
pub enum ConfigError {
    /// Rule `index` of `transport` names an upstream that is no IPv4
    /// address; `text` is what it names.
    InvalidUpstreamIp { transport: Transport, index: usize, text: String },
}

/// The rule that `rule` spells, if its upstream is an IPv4 address.
pub open spec fn entry_of(rule: Forwarders) -> Option<FileEntry> {
    match parse_text(rule.upstream_ip@) {
        Some(ip) => Some(
            FileEntry {
                upstream_ip: ip,
                upstream_port: rule.upstream_port,
                orig_port: rule.orig_port,
            },
        ),
        None => None,
    }
}

/// Whether `entries` are the rules that `rules` spell, one for one.
pub open spec fn spelled_by(entries: Seq<FileEntry>, rules: Seq<Forwarders>) -> bool {
    &&& entries.len() == rules.len()
    &&& forall|i: int| 0 <= i < rules.len() ==> entry_of(#[trigger] rules[i]) == Some(entries[i])
}

/// Whether rule `index` is the first of `rules` whose upstream is no
/// address.
pub open spec fn first_bad_rule(rules: Seq<Forwarders>, index: int) -> bool {
    &&& 0 <= index < rules.len()
    &&& entry_of(rules[index]) is None
    &&& forall|i: int| 0 <= i < index ==> entry_of(#[trigger] rules[i]) is Some
}

impl Forwarders {
    /// Reads the upstream address of the rule.
    pub fn entry(&self) -> (entry: Option<FileEntry>)
        ensures
            entry == entry_of(*self),
    {
        match Ipv4::parse(self.upstream_ip.as_str()) {
            Some(ip) => Some(
                FileEntry {
                    upstream_ip: ip,
                    upstream_port: self.upstream_port,
                    orig_port: self.orig_port,
                },
            ),
            None => None,
        }
    }
}

/// Reads every rule of one transport, stopping at the first whose
/// upstream is no address.
pub fn read_rules(rules: &Vec<Forwarders>) -> (read: Result<Vec<FileEntry>, usize>)
    ensures
        match read {
            Ok(entries) => spelled_by(entries@, rules@),
            Err(index) => first_bad_rule(rules@, index as int),
        },
{
    let mut entries: Vec<FileEntry> = Vec::new();
    let mut i: usize = 0;
    while i < rules.len()
        invariant
            i <= rules.len(),
            entries@.len() == i,
            forall|k: int| 0 <= k < i ==> entry_of(#[trigger] rules@[k]) == Some(entries@[k]),
        decreases rules.len() - i,
    {
        match rules[i].entry() {
            Some(entry) => {
                entries.push(entry);
            },
            None => {
                return Err(i);
            },
        }
        i += 1;
    }
    Ok(entries)
}

impl FileConfig {
    /// Reads a configuration as spelled. It is taken exactly when every
    /// upstream of every rule is an IPv4 address; otherwise the first
    /// rule that fails is named, UDP rules before TCP rules.
    pub fn from_configs(configs: &Configs) -> (read: Result<FileConfig, ConfigError>)
        ensures
            match read {
                Ok(file) => {
                    &&& file.port == configs.port
                    &&& spelled_by(file.udp@, configs.udp@)
                    &&& spelled_by(file.tcp@, configs.tcp@)
                },
                Err(ConfigError::InvalidUpstreamIp { transport, index, text }) => {
                    &&& transport == Transport::Udp ==> first_bad_rule(configs.udp@, index as int)
                        && text@ == configs.udp@[index as int].upstream_ip@
                    &&& transport == Transport::Tcp ==> first_bad_rule(configs.tcp@, index as int)
                        && text@ == configs.tcp@[index as int].upstream_ip@ && exists|
                        entries: Seq<FileEntry>,
                    | spelled_by(entries, configs.udp@)
                },
            },
    {
        let udp = match read_rules(&configs.udp) {
            Ok(entries) => entries,
            Err(index) => {
                return Err(
                    ConfigError::InvalidUpstreamIp {
                        transport: Transport::Udp,
                        index,
                        text: configs.udp[index].upstream_ip.clone(),
                    },
                );
            },
        };
        let tcp = match read_rules(&configs.tcp) {
            Ok(entries) => entries,
            Err(index) => {
                return Err(
                    ConfigError::InvalidUpstreamIp {
                        transport: Transport::Tcp,
                        index,
                        text: configs.tcp[index].upstream_ip.clone(),
                    },
                );
            },
        };
        Ok(FileConfig { port: configs.port, udp, tcp })
    }
}

impl ConfigError {
    /// The text the fault is reported with.
    pub open spec fn spec_message(self) -> Seq<char> {
        match self {
            ConfigError::InvalidUpstreamIp { transport, index, text } => match transport {
                Transport::Udp => "Invalid upstream IP address for UDP: "@ + text@,
                Transport::Tcp => "Invalid upstream IP address for TCP: "@ + text@,
            },
        }
    }

    /// The fault as it is logged.
    pub fn message(&self) -> (text: String)
        ensures
            text@ == self.spec_message(),
    {
        match self {
            ConfigError::InvalidUpstreamIp { transport, index, text } => match transport {
                Transport::Udp => join("Invalid upstream IP address for UDP: ", text.as_str()),
                Transport::Tcp => join("Invalid upstream IP address for TCP: ", text.as_str()),
            },
        }
    }
}

} // verus!
