//! The filter compiler: from the filter specification of a capture to the
//! entries of the parsing engine's ternary match tables.
//!
//! A key is made of tagged fields: a tag byte, then the bytes of a value.
//! The tag 1 says that the field must hold that value; the tag 0 says that
//! the field may hold anything, whatever bytes follow the tag. An entry that
//! keeps a frame has priority 100, the entry that drops what no other entry
//! of its table matches has priority 0, and the table picks the matching
//! entry of the highest priority. A table holds one such fallback, which all
//! the values that are asked of it share.

use crate::addr::{IpAddr, Ipv4Addr, Ipv6Addr};
use crate::cli::Snoop;
use crate::codes::{Alp, Ethertype, IpProto};
use vstd::prelude::*;

verus! {

/// The priority of an entry that keeps a frame.
pub const KEEP_PRIORITY: u32 = 100;

/// The priority of the entry that drops what no other entry matches.
pub const DROP_PRIORITY: u32 = 0;

/// What a table does with a frame that an entry matches.
#[derive(Clone, Copy, Debug, PartialEq, Eq, Structural)]
pub enum Action {
    Keep,
    Drop,
}

impl Action {
    /// The tag of the action in the tables of the parsing engine.
    pub open spec fn spec_name(self) -> Seq<char> {
        match self {
            Action::Keep => "keep"@,
            Action::Drop => "drop"@,
        }
    }

    /// The tag of the action in the tables of the parsing engine.
    pub fn name(self) -> (r: &'static str)
        ensures
            r@ == self.spec_name(),
    {
        match self {
            Action::Keep => "keep",
            Action::Drop => "drop",
        }
    }
}

/// A match table of the parsing engine: one for each field that can be
/// filtered on, for the outer frame and for the inner one, and one per
/// address family where the engine keeps the families apart.
#[derive(Clone, Copy, Debug, PartialEq, Eq, Structural)]
pub enum Table {
    EthEthertype,
    InnerEthEthertype,
    Ipv4Src,
    InnerIpv4Src,
    Ipv6Src,
    InnerIpv6Src,
    Ipv4Dst,
    InnerIpv4Dst,
    Ipv6Dst,
    InnerIpv6Dst,
    Ipv4Host,
    InnerIpv4Host,
    Ipv6Host,
    InnerIpv6Host,
    Ipv4Proto,
    InnerIpv4Proto,
    Ipv6Proto,
    InnerIpv6Proto,
    PortsSrc,
    InnerPortsSrc,
    PortsDst,
    InnerPortsDst,
    PortsPort,
    InnerPortsPort,
    AppProto,
    InnerAppProto,
    VlanVid,
}

/// The mathematical value of a match entry.
pub struct Rule {
    pub table: Table,
    pub action: Action,
    pub key: Seq<u8>,
    pub params: Seq<u8>,
    pub priority: u32,
}

/// One row of a match table.
#[derive(Clone, Debug, PartialEq, Eq)]
pub struct MatchEntry {
    /// The table that the row belongs to.
    pub table: Table,
    /// What the table does with a frame that the row matches.
    pub action: Action,
    /// The key that a frame is held against.
    pub key: Vec<u8>,
    /// The parameters of the action; always empty.
    pub params: Vec<u8>,
    /// The rank of the row among those that match.
    pub priority: u32,
}

impl View for MatchEntry {
    type V = Rule;

    open spec fn view(&self) -> Rule {
        Rule {
            table: self.table,
            action: self.action,
            key: self.key@,
            params: self.params@,
            priority: self.priority,
        }
    }
}

/// The tagged field that matches the value `value` and nothing else.
pub open spec fn exact(value: Seq<u8>) -> Seq<u8> {
    seq![1u8] + value
}

/// The tagged field that matches anything: the tag 0 before the bytes of
/// `value`, which the table does not look at.
pub open spec fn free(value: Seq<u8>) -> Seq<u8> {
    seq![0u8] + value
}

/// The two bytes of a 16-bit number, the less significant first.
pub open spec fn le16(v: u16) -> Seq<u8> {
    seq![(v % 256) as u8, (v / 256) as u8]
}

/// The entry that keeps the frames that `key` matches.
pub open spec fn keep_rule(table: Table, key: Seq<u8>) -> Rule {
    Rule { table, action: Action::Keep, key, params: Seq::empty(), priority: KEEP_PRIORITY }
}

/// The entry that drops the frames that `key` matches, unless an entry of
/// higher priority matches them too.
pub open spec fn drop_rule(table: Table, key: Seq<u8>) -> Rule {
    Rule { table, action: Action::Drop, key, params: Seq::empty(), priority: DROP_PRIORITY }
}

/// The entries that restrict one field to `value`: one that keeps the
/// frames whose field holds the value, and the fallback that drops the rest.
pub open spec fn equality_rules(table: Table, value: Seq<u8>) -> Seq<Rule> {
    seq![keep_rule(table, exact(value)), drop_rule(table, free(value))]
}

/// The entries that ask for `value` in either of two fields, the source
/// field first in the key: one that keeps the frames whose source holds the
/// value, one that keeps those whose destination holds it, and the fallback
/// that drops the rest.
pub open spec fn either_rules(table: Table, value: Seq<u8>) -> Seq<Rule> {
    seq![
        keep_rule(table, exact(value) + free(value)),
        keep_rule(table, free(value) + exact(value)),
        drop_rule(table, free(value) + free(value)),
    ]
}

/// Whether `rules` hold a fallback for `table`: an entry of that table that
/// drops.
pub open spec fn holds_fallback(rules: Seq<Rule>, table: Table) -> bool {
    exists|i: int|
        0 <= i < rules.len() && (#[trigger] rules[i]).table == table && rules[i].action
            == Action::Drop
}

/// Whether `rules` need no `rule` any more. An entry that drops is the
/// fallback of its table, and a table has one fallback: it is needed only
/// while the table holds none. Any other entry is needed while `rules` do not
/// hold the same entry.
pub open spec fn satisfied(rules: Seq<Rule>, rule: Rule) -> bool {
    if rule.action == Action::Drop {
        holds_fallback(rules, rule.table)
    } else {
        rules.contains(rule)
    }
}

/// `rules` with `rule` behind them, unless they need it no more.
pub open spec fn installed(rules: Seq<Rule>, rule: Rule) -> Seq<Rule> {
    if satisfied(rules, rule) {
        rules
    } else {
        rules.push(rule)
    }
}

/// `rules` with each of `more` installed in turn.
pub open spec fn install_all(rules: Seq<Rule>, more: Seq<Rule>) -> Seq<Rule>
    decreases more.len(),
{
    if more.len() == 0 {
        rules
    } else {
        installed(install_all(rules, more.drop_last()), more.last())
    }
}

/// Whether no table holds two fallbacks.
pub open spec fn one_fallback_per_table(rules: Seq<Rule>) -> bool {
    forall|i: int, j: int|
        0 <= i < j < rules.len() && (#[trigger] rules[i]).action == Action::Drop && (
        #[trigger] rules[j]).action == Action::Drop ==> rules[i].table != rules[j].table
}

/// The handle on the match tables of the parsing engine: the entries that
/// have been installed, in the order of their installation. No entry is held
/// twice, and no table holds two fallbacks.
#[derive(Clone, Debug)]
pub struct Pipeline {
    entries: Vec<MatchEntry>,
}

impl View for Pipeline {
    type V = Seq<Rule>;

    closed spec fn view(&self) -> Seq<Rule> {
        self.entries@.map_values(|e: MatchEntry| e@)
    }
}

fn same_bytes(a: &Vec<u8>, b: &Vec<u8>) -> (r: bool)
    ensures
        r == (a@ == b@),
{
    if a.len() != b.len() {
        return false;
    }
    let mut i: usize = 0;
    while i < a.len()
        invariant
            i <= a.len(),
            a.len() == b.len(),
            forall|j: int| 0 <= j < i ==> a@[j] == b@[j],
        decreases a.len() - i,
    {
        if a[i] != b[i] {
            return false;
        }
        i += 1;
    }
    proof {
        assert(a@ =~= b@);
    }
    true
}

impl MatchEntry {
    /// Whether two entries are the same row: same table, action, key,
    /// parameters and priority.
    pub fn same(&self, other: &MatchEntry) -> (r: bool)
        ensures
            r == (self@ == other@),
    {
        self.table == other.table && self.action == other.action && self.priority
            == other.priority && same_bytes(&self.key, &other.key) && same_bytes(
            &self.params,
            &other.params,
        )
    }
}

impl Pipeline {
    /// Whether no entry is held twice and no table holds two fallbacks.
    pub open spec fn wf(&self) -> bool {
        self@.no_duplicates() && one_fallback_per_table(self@)
    }

    /// A handle on empty tables.
    pub fn new() -> (r: Pipeline)
        ensures
            r@ == Seq::<Rule>::empty(),
            r.wf(),
    {
        Pipeline { entries: Vec::new() }
    }

    /// The entries that have been installed, in the order of their
    /// installation.
    pub fn entries(&self) -> (r: &Vec<MatchEntry>)
        ensures
            r@.map_values(|e: MatchEntry| e@) == self@,
    {
        &self.entries
    }

    /// Whether the tables hold `entry`.
    pub fn contains(&self, entry: &MatchEntry) -> (r: bool)
        ensures
            r == self@.contains(entry@),
    {
        let mut i: usize = 0;
        while i < self.entries.len()
            invariant
                i <= self.entries.len(),
                forall|j: int| 0 <= j < i ==> self@[j] != entry@,
            decreases self.entries.len() - i,
        {
            if self.entries[i].same(entry) {
                assert(self@[i as int] == entry@);
                return true;
            }
            i += 1;
        }
        false
    }

    /// Whether `table` holds a fallback.
    pub fn has_fallback(&self, table: Table) -> (r: bool)
        ensures
            r == holds_fallback(self@, table),
    {
        let mut i: usize = 0;
        while i < self.entries.len()
            invariant
                i <= self.entries.len(),
                forall|j: int|
                    0 <= j < i ==> !((#[trigger] self@[j]).table == table && self@[j].action
                        == Action::Drop),
            decreases self.entries.len() - i,
        {
            if self.entries[i].table == table && self.entries[i].action == Action::Drop {
                assert(self@[i as int].table == table && self@[i as int].action == Action::Drop);
                return true;
            }
            i += 1;
        }
        false
    }

    /// Installs one entry, unless the tables need it no more: an entry that
    /// drops is left out where its table holds a fallback already, any other
    /// entry where the tables hold the same entry.
    pub fn install(
        &mut self,
        table: Table,
        action: Action,
        key: Vec<u8>,
        params: Vec<u8>,
        priority: u32,
    )
        ensures
            final(self)@ == installed(
                old(self)@,
                Rule { table, action, key: key@, params: params@, priority },
            ),
            old(self).wf() ==> final(self).wf(),
    {
        let entry = MatchEntry { table, action, key, params, priority };
        let held = match action {
            Action::Drop => self.has_fallback(table),
            Action::Keep => self.contains(&entry),
        };
        if !held {
            proof {
                installed_keeps_order(self@, entry@);
            }
            self.entries.push(entry);
            proof {
                assert(final(self)@ =~= old(self)@.push(entry@));
            }
        }
    }
}

/// An entry that is installed goes to the end, and the tables stay free of
/// duplicates and of second fallbacks.
pub proof fn installed_keeps_order(rules: Seq<Rule>, rule: Rule)
    ensures
        rules.no_duplicates() ==> installed(rules, rule).no_duplicates(),
        one_fallback_per_table(rules) ==> one_fallback_per_table(installed(rules, rule)),
{
    if !satisfied(rules, rule) {
        let after = rules.push(rule);
        if rules.contains(rule) {
            let i = choose|i: int| 0 <= i < rules.len() && rules[i] == rule;
            assert(rules[i].table == rule.table && rules[i].action == rule.action);
        }
        assert(!rules.contains(rule));
        if one_fallback_per_table(rules) {
            assert forall|i: int, j: int|
                0 <= i < j < after.len() && (#[trigger] after[i]).action == Action::Drop && (
                #[trigger] after[j]).action == Action::Drop implies after[i].table
                != after[j].table by {
                if j < rules.len() {
                    assert(rules[i].action == Action::Drop && rules[j].action == Action::Drop);
                } else {
                    assert(after[i] == rules[i]);
                    if rules[i].table == rule.table {
                        assert(holds_fallback(rules, rule.table));
                    }
                }
            }
        }
    }
}

/// The table of a field in the outer frame, or its counterpart for the
/// inner frame where `encap` holds.
pub open spec fn layer_table(outer: Table, inner: Table, encap: bool) -> Table {
    if encap {
        inner
    } else {
        outer
    }
}

/// The entries that restrict the IPv4 source address to `src`. An address
/// stands in a key last octet first.
pub open spec fn ip4_src_rules(src: Ipv4Addr, encap: bool) -> Seq<Rule> {
    equality_rules(layer_table(Table::Ipv4Src, Table::InnerIpv4Src, encap), src.octets@.reverse())
}

/// The entries that restrict the IPv6 source address to `src`.
pub open spec fn ip6_src_rules(src: Ipv6Addr, encap: bool) -> Seq<Rule> {
    equality_rules(layer_table(Table::Ipv6Src, Table::InnerIpv6Src, encap), src.octets@.reverse())
}

/// The entries that restrict the source address to `src`, in the table of
/// its family.
pub open spec fn ip_src_rules(src: IpAddr, encap: bool) -> Seq<Rule> {
    match src {
        IpAddr::V4(a) => ip4_src_rules(a, encap),
        IpAddr::V6(a) => ip6_src_rules(a, encap),
    }
}

/// The entries that restrict the IPv4 destination address to `dst`.
pub open spec fn ip4_dst_rules(dst: Ipv4Addr, encap: bool) -> Seq<Rule> {
    equality_rules(layer_table(Table::Ipv4Dst, Table::InnerIpv4Dst, encap), dst.octets@.reverse())
}

/// The entries that restrict the IPv6 destination address to `dst`.
pub open spec fn ip6_dst_rules(dst: Ipv6Addr, encap: bool) -> Seq<Rule> {
    equality_rules(layer_table(Table::Ipv6Dst, Table::InnerIpv6Dst, encap), dst.octets@.reverse())
}

/// The entries that restrict the destination address to `dst`, in the table
/// of its family.
pub open spec fn ip_dst_rules(dst: IpAddr, encap: bool) -> Seq<Rule> {
    match dst {
        IpAddr::V4(a) => ip4_dst_rules(a, encap),
        IpAddr::V6(a) => ip6_dst_rules(a, encap),
    }
}

/// The entries that ask for the IPv4 address `host` as source or as
/// destination.
pub open spec fn ip4_host_rules(host: Ipv4Addr, encap: bool) -> Seq<Rule> {
    either_rules(layer_table(Table::Ipv4Host, Table::InnerIpv4Host, encap), host.octets@.reverse())
}

/// The entries that ask for the IPv6 address `host` as source or as
/// destination.
pub open spec fn ip6_host_rules(host: Ipv6Addr, encap: bool) -> Seq<Rule> {
    either_rules(layer_table(Table::Ipv6Host, Table::InnerIpv6Host, encap), host.octets@.reverse())
}

/// The entries that ask for `host` as source or as destination, in the table
/// of its family.
pub open spec fn ip_host_rules(host: IpAddr, encap: bool) -> Seq<Rule> {
    match host {
        IpAddr::V4(a) => ip4_host_rules(a, encap),
        IpAddr::V6(a) => ip6_host_rules(a, encap),
    }
}

/// The entries that restrict the IP protocol number to `proto`: the engine
/// keeps one table for each address family, and both are filled.
pub open spec fn ip_proto_rules(proto: u8, encap: bool) -> Seq<Rule> {
    let v4 = layer_table(Table::Ipv4Proto, Table::InnerIpv4Proto, encap);
    let v6 = layer_table(Table::Ipv6Proto, Table::InnerIpv6Proto, encap);
    seq![
        keep_rule(v4, exact(seq![proto])),
        keep_rule(v6, exact(seq![proto])),
        drop_rule(v4, free(seq![proto])),
        drop_rule(v6, free(seq![proto])),
    ]
}

/// The entries that restrict the transport source port to `port`.
pub open spec fn src_port_rules(port: u16, encap: bool) -> Seq<Rule> {
    equality_rules(layer_table(Table::PortsSrc, Table::InnerPortsSrc, encap), le16(port))
}

/// The entries that restrict the transport destination port to `port`.
pub open spec fn dst_port_rules(port: u16, encap: bool) -> Seq<Rule> {
    equality_rules(layer_table(Table::PortsDst, Table::InnerPortsDst, encap), le16(port))
}

/// The entries that ask for `port` as source or as destination port.
pub open spec fn port_rules(port: u16, encap: bool) -> Seq<Rule> {
    either_rules(layer_table(Table::PortsPort, Table::InnerPortsPort, encap), le16(port))
}

/// The entries that restrict the application layer protocol tag to `proto`.
pub open spec fn app_proto_rules(proto: u8, encap: bool) -> Seq<Rule> {
    equality_rules(layer_table(Table::AppProto, Table::InnerAppProto, encap), seq![proto])
}

/// The entries that restrict the VLAN identifier to `vid`.
pub open spec fn vlan_vid_rules(vid: u16) -> Seq<Rule> {
    equality_rules(Table::VlanVid, le16(vid))
}

/// The entries that restrict the ethertype to `ethtype`.
pub open spec fn ethtype_rules(ethtype: u16, encap: bool) -> Seq<Rule> {
    equality_rules(layer_table(Table::EthEthertype, Table::InnerEthEthertype, encap), le16(ethtype))
}

fn pick(outer: Table, inner: Table, encap: bool) -> (r: Table)
    ensures
        r == layer_table(outer, inner, encap),
{
    if encap {
        inner
    } else {
        outer
    }
}

fn push_exact(key: &mut Vec<u8>, value: &Vec<u8>)
    ensures
        final(key)@ == old(key)@ + exact(value@),
{
    key.push(1);
    let mut i: usize = 0;
    while i < value.len()
        invariant
            i <= value.len(),
            key@ == old(key)@ + exact(value@.take(i as int)),
        decreases value.len() - i,
    {
        key.push(value[i]);
        proof {
            assert(key@ =~= old(key)@ + exact(value@.take(i + 1)));
        }
        i += 1;
    }
    proof {
        assert(value@.take(i as int) =~= value@);
    }
}

fn push_free(key: &mut Vec<u8>, value: &Vec<u8>)
    ensures
        final(key)@ == old(key)@ + free(value@),
{
    key.push(0);
    let mut i: usize = 0;
    while i < value.len()
        invariant
            i <= value.len(),
            key@ == old(key)@ + free(value@.take(i as int)),
        decreases value.len() - i,
    {
        key.push(value[i]);
        proof {
            assert(key@ =~= old(key)@ + free(value@.take(i + 1)));
        }
        i += 1;
    }
    proof {
        assert(value@.take(i as int) =~= value@);
    }
}

fn le16_bytes(v: u16) -> (r: Vec<u8>)
    ensures
        r@ == le16(v),
{
    let mut out: Vec<u8> = Vec::new();
    out.push((v % 256) as u8);
    out.push((v / 256) as u8);
    out
}

fn reversed(bytes: &[u8]) -> (r: Vec<u8>)
    ensures
        r@ == bytes@.reverse(),
{
    let mut out: Vec<u8> = Vec::new();
    let mut i: usize = bytes.len();
    while i > 0
        invariant
            i <= bytes.len(),
            out@.len() == bytes.len() - i,
            forall|j: int| 0 <= j < out@.len() ==> out@[j] == bytes@[bytes.len() - 1 - j],
        decreases i,
    {
        i -= 1;
        out.push(bytes[i]);
    }
    proof {
        assert(out@ =~= bytes@.reverse());
    }
    out
}

impl Pipeline {
    /// Installs the entries that restrict one field to `value`.
    pub fn install_equality(&mut self, table: Table, value: &Vec<u8>)
        ensures
            final(self)@ == install_all(old(self)@, equality_rules(table, value@)),
            old(self).wf() ==> final(self).wf(),
    {
        let mut keep: Vec<u8> = Vec::new();
        push_exact(&mut keep, value);
        let mut fallback: Vec<u8> = Vec::new();
        push_free(&mut fallback, value);
        self.install(table, Action::Keep, keep, Vec::new(), KEEP_PRIORITY);
        self.install(table, Action::Drop, fallback, Vec::new(), DROP_PRIORITY);
        proof {
            let rules = equality_rules(table, value@);
            assert(rules.drop_last() =~= seq![rules[0]]);
            assert(rules.drop_last().drop_last() =~= Seq::<Rule>::empty());
            reveal_with_fuel(install_all, 3);
        }
    }

    /// Installs the entries that ask for `value` in either of two fields.
    pub fn install_either(&mut self, table: Table, value: &Vec<u8>)
        ensures
            final(self)@ == install_all(old(self)@, either_rules(table, value@)),
            old(self).wf() ==> final(self).wf(),
    {
        let mut as_source: Vec<u8> = Vec::new();
        push_exact(&mut as_source, value);
        push_free(&mut as_source, value);
        let mut as_destination: Vec<u8> = Vec::new();
        push_free(&mut as_destination, value);
        push_exact(&mut as_destination, value);
        let mut fallback: Vec<u8> = Vec::new();
        push_free(&mut fallback, value);
        push_free(&mut fallback, value);
        self.install(table, Action::Keep, as_source, Vec::new(), KEEP_PRIORITY);
        self.install(table, Action::Keep, as_destination, Vec::new(), KEEP_PRIORITY);
        self.install(table, Action::Drop, fallback, Vec::new(), DROP_PRIORITY);
        proof {
            let rules = either_rules(table, value@);
            assert(rules.drop_last() =~= seq![rules[0], rules[1]]);
            assert(rules.drop_last().drop_last() =~= seq![rules[0]]);
            assert(rules.drop_last().drop_last().drop_last() =~= Seq::<Rule>::empty());
            reveal_with_fuel(install_all, 4);
        }
    }
}

/// Installing one list of entries and then another is installing the two
/// lists as one.
pub proof fn install_all_concat(rules: Seq<Rule>, first: Seq<Rule>, second: Seq<Rule>)
    ensures
        install_all(install_all(rules, first), second) == install_all(rules, first + second),
    decreases second.len(),
{
    if second.len() == 0 {
        assert(first + second =~= first);
    } else {
        install_all_concat(rules, first, second.drop_last());
        assert((first + second).drop_last() =~= first + second.drop_last());
        assert((first + second).last() == second.last());
    }
}

/// What the tables need no more, they need no more after any installation:
/// installing removes nothing.
pub proof fn installed_keeps_satisfied(rules: Seq<Rule>, rule: Rule, other: Rule)
    ensures
        satisfied(rules, other) ==> satisfied(installed(rules, rule), other),
        satisfied(installed(rules, rule), rule),
{
    let after = installed(rules, rule);
    if !satisfied(rules, rule) {
        assert(after.last() == rule);
        assert(after[after.len() - 1] == rule);
        if satisfied(rules, other) {
            if other.action == Action::Drop {
                let i = choose|i: int|
                    0 <= i < rules.len() && (#[trigger] rules[i]).table == other.table
                        && rules[i].action == Action::Drop;
                assert(after[i] == rules[i]);
            } else {
                let i = choose|i: int| 0 <= i < rules.len() && rules[i] == other;
                assert(after[i] == other);
            }
        }
    }
}

/// After a list of entries is installed, the tables need none of them any
/// more, and nothing that they did not need before.
pub proof fn install_all_satisfies(rules: Seq<Rule>, more: Seq<Rule>, rule: Rule)
    requires
        satisfied(rules, rule) || more.contains(rule),
    ensures
        satisfied(install_all(rules, more), rule),
    decreases more.len(),
{
    if more.len() > 0 {
        let before = install_all(rules, more.drop_last());
        installed_keeps_satisfied(before, more.last(), rule);
        if satisfied(rules, rule) {
            install_all_satisfies(rules, more.drop_last(), rule);
        } else {
            let i = choose|i: int| 0 <= i < more.len() && more[i] == rule;
            if i < more.len() - 1 {
                assert(more.drop_last()[i] == rule);
                install_all_satisfies(rules, more.drop_last(), rule);
            }
        }
    }
}

/// Installing keeps the tables free of duplicates and of second fallbacks.
pub proof fn install_all_no_duplicates(rules: Seq<Rule>, more: Seq<Rule>)
    ensures
        rules.no_duplicates() ==> install_all(rules, more).no_duplicates(),
        one_fallback_per_table(rules) ==> one_fallback_per_table(install_all(rules, more)),
    decreases more.len(),
{
    if more.len() > 0 {
        install_all_no_duplicates(rules, more.drop_last());
        installed_keeps_order(install_all(rules, more.drop_last()), more.last());
    }
}

/// Installing entries that the tables need no more changes nothing.
pub proof fn install_all_present(rules: Seq<Rule>, more: Seq<Rule>)
    requires
        forall|i: int| 0 <= i < more.len() ==> satisfied(rules, #[trigger] more[i]),
    ensures
        install_all(rules, more) == rules,
    decreases more.len(),
{
    if more.len() > 0 {
        assert forall|i: int| 0 <= i < more.drop_last().len() implies satisfied(
            rules,
            #[trigger] more.drop_last()[i],
        ) by {
            assert(more.drop_last()[i] == more[i]);
        }
        install_all_present(rules, more.drop_last());
        assert(satisfied(rules, more[more.len() - 1]));
    }
}

/// Installing the same entries a second time changes nothing: what is asked
/// for twice is held once.
pub proof fn install_all_idempotent(rules: Seq<Rule>, more: Seq<Rule>)
    ensures
        install_all(install_all(rules, more), more) == install_all(rules, more),
        install_all(rules, more + more) == install_all(rules, more),
{
    let once = install_all(rules, more);
    assert forall|i: int| 0 <= i < more.len() implies satisfied(once, #[trigger] more[i]) by {
        install_all_satisfies(rules, more, more[i]);
    }
    install_all_present(once, more);
    install_all_concat(rules, more, more);
}

/// Installs the entries that restrict the source address to `src`, in the
/// table of its family.
pub fn set_ip_src(pipeline: &mut Pipeline, src: IpAddr, encap: bool)
    ensures
        final(pipeline)@ == install_all(old(pipeline)@, ip_src_rules(src, encap)),
        old(pipeline).wf() ==> final(pipeline).wf(),
{
    match src {
        IpAddr::V4(v4) => set_ip4_src(pipeline, v4, encap),
        IpAddr::V6(v6) => set_ip6_src(pipeline, v6, encap),
    }
}

/// Installs the entries that restrict the IPv4 source address to `src`.
pub fn set_ip4_src(pipeline: &mut Pipeline, src: Ipv4Addr, encap: bool)
    ensures
        final(pipeline)@ == install_all(old(pipeline)@, ip4_src_rules(src, encap)),
        old(pipeline).wf() ==> final(pipeline).wf(),
{
    let octets = reversed(src.octets.as_slice());
    pipeline.install_equality(pick(Table::Ipv4Src, Table::InnerIpv4Src, encap), &octets);
}

/// Installs the entries that restrict the IPv6 source address to `src`.
pub fn set_ip6_src(pipeline: &mut Pipeline, src: Ipv6Addr, encap: bool)
    ensures
        final(pipeline)@ == install_all(old(pipeline)@, ip6_src_rules(src, encap)),
        old(pipeline).wf() ==> final(pipeline).wf(),
{
    let octets = reversed(src.octets.as_slice());
    pipeline.install_equality(pick(Table::Ipv6Src, Table::InnerIpv6Src, encap), &octets);
}

/// Installs the entries that restrict the destination address to `dst`, in
/// the table of its family.
pub fn set_ip_dst(pipeline: &mut Pipeline, dst: IpAddr, encap: bool)
    ensures
        final(pipeline)@ == install_all(old(pipeline)@, ip_dst_rules(dst, encap)),
        old(pipeline).wf() ==> final(pipeline).wf(),
{
    match dst {
        IpAddr::V4(v4) => set_ip4_dst(pipeline, v4, encap),
        IpAddr::V6(v6) => set_ip6_dst(pipeline, v6, encap),
    }
}

/// Installs the entries that restrict the IPv4 destination address to `dst`.
pub fn set_ip4_dst(pipeline: &mut Pipeline, dst: Ipv4Addr, encap: bool)
    ensures
        final(pipeline)@ == install_all(old(pipeline)@, ip4_dst_rules(dst, encap)),
        old(pipeline).wf() ==> final(pipeline).wf(),
{
    let octets = reversed(dst.octets.as_slice());
    pipeline.install_equality(pick(Table::Ipv4Dst, Table::InnerIpv4Dst, encap), &octets);
}

/// Installs the entries that restrict the IPv6 destination address to `dst`.
pub fn set_ip6_dst(pipeline: &mut Pipeline, dst: Ipv6Addr, encap: bool)
    ensures
        final(pipeline)@ == install_all(old(pipeline)@, ip6_dst_rules(dst, encap)),
        old(pipeline).wf() ==> final(pipeline).wf(),
{
    let octets = reversed(dst.octets.as_slice());
    pipeline.install_equality(pick(Table::Ipv6Dst, Table::InnerIpv6Dst, encap), &octets);
}

/// Installs the entries that ask for `host` as source or as destination, in
/// the table of its family.
pub fn set_ip_host(pipeline: &mut Pipeline, host: IpAddr, encap: bool)
    ensures
        final(pipeline)@ == install_all(old(pipeline)@, ip_host_rules(host, encap)),
        old(pipeline).wf() ==> final(pipeline).wf(),
{
    match host {
        IpAddr::V4(v4) => set_ip4_host(pipeline, v4, encap),
        IpAddr::V6(v6) => set_ip6_host(pipeline, v6, encap),
    }
}

/// Installs the entries that ask for the IPv4 address `host` as source or
/// as destination: the first keeps the frames that it sent, whatever their
/// destination, the second those that it is to receive, whatever their
/// source, and the third, at the lowest priority, drops the rest.
pub fn set_ip4_host(pipeline: &mut Pipeline, host: Ipv4Addr, encap: bool)
    ensures
        final(pipeline)@ == install_all(old(pipeline)@, ip4_host_rules(host, encap)),
        old(pipeline).wf() ==> final(pipeline).wf(),
{
    let octets = reversed(host.octets.as_slice());
    pipeline.install_either(pick(Table::Ipv4Host, Table::InnerIpv4Host, encap), &octets);
}

/// Installs the entries that ask for the IPv6 address `host` as source or
/// as destination: the first keeps the frames that it sent, whatever their
/// destination, the second those that it is to receive, whatever their
/// source, and the third, at the lowest priority, drops the rest.
pub fn set_ip6_host(pipeline: &mut Pipeline, host: Ipv6Addr, encap: bool)
    ensures
        final(pipeline)@ == install_all(old(pipeline)@, ip6_host_rules(host, encap)),
        old(pipeline).wf() ==> final(pipeline).wf(),
{
    let octets = reversed(host.octets.as_slice());
    pipeline.install_either(pick(Table::Ipv6Host, Table::InnerIpv6Host, encap), &octets);
}

/// Installs the entries that restrict the IP protocol number to `proto`, in
/// the tables of both address families.
pub fn ip_proto(pipeline: &mut Pipeline, proto: u8, encap: bool)
    ensures
        final(pipeline)@ == install_all(old(pipeline)@, ip_proto_rules(proto, encap)),
        old(pipeline).wf() ==> final(pipeline).wf(),
{
    let v4 = pick(Table::Ipv4Proto, Table::InnerIpv4Proto, encap);
    let v6 = pick(Table::Ipv6Proto, Table::InnerIpv6Proto, encap);
    let mut value: Vec<u8> = Vec::new();
    value.push(proto);
    let mut keep4: Vec<u8> = Vec::new();
    push_exact(&mut keep4, &value);
    let mut keep6: Vec<u8> = Vec::new();
    push_exact(&mut keep6, &value);
    let mut drop4: Vec<u8> = Vec::new();
    push_free(&mut drop4, &value);
    let mut drop6: Vec<u8> = Vec::new();
    push_free(&mut drop6, &value);
    pipeline.install(v4, Action::Keep, keep4, Vec::new(), KEEP_PRIORITY);
    pipeline.install(v6, Action::Keep, keep6, Vec::new(), KEEP_PRIORITY);
    pipeline.install(v4, Action::Drop, drop4, Vec::new(), DROP_PRIORITY);
    pipeline.install(v6, Action::Drop, drop6, Vec::new(), DROP_PRIORITY);
    proof {
        let rules = ip_proto_rules(proto, encap);
        assert(value@ =~= seq![proto]);
        assert(rules.drop_last() =~= seq![rules[0], rules[1], rules[2]]);
        assert(rules.drop_last().drop_last() =~= seq![rules[0], rules[1]]);
        assert(rules.drop_last().drop_last().drop_last() =~= seq![rules[0]]);
        assert(rules.drop_last().drop_last().drop_last().drop_last() =~= Seq::<Rule>::empty());
        reveal_with_fuel(install_all, 5);
    }
}

/// Installs the entries that restrict the transport source port to `port`.
pub fn src_port(pipeline: &mut Pipeline, port: u16, encap: bool)
    ensures
        final(pipeline)@ == install_all(old(pipeline)@, src_port_rules(port, encap)),
        old(pipeline).wf() ==> final(pipeline).wf(),
{
    let value = le16_bytes(port);
    pipeline.install_equality(pick(Table::PortsSrc, Table::InnerPortsSrc, encap), &value);
}

/// Installs the entries that restrict the transport destination port to
/// `port`.
pub fn dst_port(pipeline: &mut Pipeline, port: u16, encap: bool)
    ensures
        final(pipeline)@ == install_all(old(pipeline)@, dst_port_rules(port, encap)),
        old(pipeline).wf() ==> final(pipeline).wf(),
{
    let value = le16_bytes(port);
    pipeline.install_equality(pick(Table::PortsDst, Table::InnerPortsDst, encap), &value);
}

/// Installs the entries that ask for `port` as source or as destination
/// port.
pub fn port(pipeline: &mut Pipeline, port: u16, encap: bool)
    ensures
        final(pipeline)@ == install_all(old(pipeline)@, port_rules(port, encap)),
        old(pipeline).wf() ==> final(pipeline).wf(),
{
    let value = le16_bytes(port);
    pipeline.install_either(pick(Table::PortsPort, Table::InnerPortsPort, encap), &value);
}

/// Installs the entries that restrict the application layer protocol tag to
/// `proto`.
pub fn app_proto(pipeline: &mut Pipeline, proto: u8, encap: bool)
    ensures
        final(pipeline)@ == install_all(old(pipeline)@, app_proto_rules(proto, encap)),
        old(pipeline).wf() ==> final(pipeline).wf(),
{
    let mut value: Vec<u8> = Vec::new();
    value.push(proto);
    proof {
        assert(value@ =~= seq![proto]);
    }
    pipeline.install_equality(pick(Table::AppProto, Table::InnerAppProto, encap), &value);
}

/// Installs the entries that restrict the VLAN identifier to `vid`.
pub fn vlan_vid(pipeline: &mut Pipeline, vid: u16)
    ensures
        final(pipeline)@ == install_all(old(pipeline)@, vlan_vid_rules(vid)),
        old(pipeline).wf() ==> final(pipeline).wf(),
{
    let value = le16_bytes(vid);
    pipeline.install_equality(Table::VlanVid, &value);
}

/// Installs the entries that restrict the ethertype to `ethtype`.
pub fn ethtype_only(pipeline: &mut Pipeline, ethtype: u16, encap: bool)
    ensures
        final(pipeline)@ == install_all(old(pipeline)@, ethtype_rules(ethtype, encap)),
        old(pipeline).wf() ==> final(pipeline).wf(),
{
    let value = le16_bytes(ethtype);
    pipeline.install_equality(pick(Table::EthEthertype, Table::InnerEthEthertype, encap), &value);
}

/// Installs the entries that keep VLAN-tagged frames only.
pub fn vlan_only(pipeline: &mut Pipeline)
    ensures
        final(pipeline)@ == install_all(old(pipeline)@, ethtype_rules(0x8100, false)),
        old(pipeline).wf() ==> final(pipeline).wf(),
{
    ethtype_only(pipeline, 0x8100, false)
}

/// Installs the entries that keep IPv4 only.
pub fn v4_only(pipeline: &mut Pipeline, encap: bool)
    ensures
        final(pipeline)@ == install_all(old(pipeline)@, ethtype_rules(0x0800, encap)),
        old(pipeline).wf() ==> final(pipeline).wf(),
{
    ethtype_only(pipeline, 0x0800, encap)
}

/// Installs the entries that keep IPv6 only.
pub fn v6_only(pipeline: &mut Pipeline, encap: bool)
    ensures
        final(pipeline)@ == install_all(old(pipeline)@, ethtype_rules(0x86dd, encap)),
        old(pipeline).wf() ==> final(pipeline).wf(),
{
    ethtype_only(pipeline, 0x86dd, encap)
}

/// Installs the entries that keep ARP only.
pub fn arp_only(pipeline: &mut Pipeline, encap: bool)
    ensures
        final(pipeline)@ == install_all(old(pipeline)@, ethtype_rules(0x0806, encap)),
        old(pipeline).wf() ==> final(pipeline).wf(),
{
    ethtype_only(pipeline, 0x0806, encap)
}

/// The entries that restrict the source address to each of `values` in turn.
pub open spec fn ip_srcs_rules(values: Seq<IpAddr>, encap: bool) -> Seq<Rule>
    decreases values.len(),
{
    if values.len() == 0 {
        Seq::empty()
    } else {
        ip_srcs_rules(values.drop_last(), encap) + ip_src_rules(values.last(), encap)
    }
}

fn ip_srcs(pipeline: &mut Pipeline, values: &Vec<IpAddr>, encap: bool)
    ensures
        final(pipeline)@ == install_all(old(pipeline)@, ip_srcs_rules(values@, encap)),
        old(pipeline).wf() ==> final(pipeline).wf(),
{
    let mut i: usize = 0;
    while i < values.len()
        invariant
            i <= values.len(),
            pipeline@ == install_all(old(pipeline)@, ip_srcs_rules(values@.take(i as int), encap)),
            old(pipeline).wf() ==> pipeline.wf(),
        decreases values.len() - i,
    {
        proof {
            assert(values@.take(i + 1).drop_last() =~= values@.take(i as int));
            install_all_concat(
                old(pipeline)@,
                ip_srcs_rules(values@.take(i as int), encap),
                ip_src_rules(values@[i as int], encap),
            );
        }
        set_ip_src(pipeline, values[i], encap);
        i += 1;
    }
    proof {
        assert(values@.take(i as int) =~= values@);
    }
}

/// The entries that restrict the destination address to each of `values` in turn.
pub open spec fn ip_dsts_rules(values: Seq<IpAddr>, encap: bool) -> Seq<Rule>
    decreases values.len(),
{
    if values.len() == 0 {
        Seq::empty()
    } else {
        ip_dsts_rules(values.drop_last(), encap) + ip_dst_rules(values.last(), encap)
    }
}

fn ip_dsts(pipeline: &mut Pipeline, values: &Vec<IpAddr>, encap: bool)
    ensures
        final(pipeline)@ == install_all(old(pipeline)@, ip_dsts_rules(values@, encap)),
        old(pipeline).wf() ==> final(pipeline).wf(),
{
    let mut i: usize = 0;
    while i < values.len()
        invariant
            i <= values.len(),
            pipeline@ == install_all(old(pipeline)@, ip_dsts_rules(values@.take(i as int), encap)),
            old(pipeline).wf() ==> pipeline.wf(),
        decreases values.len() - i,
    {
        proof {
            assert(values@.take(i + 1).drop_last() =~= values@.take(i as int));
            install_all_concat(
                old(pipeline)@,
                ip_dsts_rules(values@.take(i as int), encap),
                ip_dst_rules(values@[i as int], encap),
            );
        }
        set_ip_dst(pipeline, values[i], encap);
        i += 1;
    }
    proof {
        assert(values@.take(i as int) =~= values@);
    }
}

/// The entries that ask for each of `values` in turn as source or as destination.
pub open spec fn ip_hosts_rules(values: Seq<IpAddr>, encap: bool) -> Seq<Rule>
    decreases values.len(),
{
    if values.len() == 0 {
        Seq::empty()
    } else {
        ip_hosts_rules(values.drop_last(), encap) + ip_host_rules(values.last(), encap)
    }
}

fn ip_hosts(pipeline: &mut Pipeline, values: &Vec<IpAddr>, encap: bool)
    ensures
        final(pipeline)@ == install_all(old(pipeline)@, ip_hosts_rules(values@, encap)),
        old(pipeline).wf() ==> final(pipeline).wf(),
{
    let mut i: usize = 0;
    while i < values.len()
        invariant
            i <= values.len(),
            pipeline@ == install_all(old(pipeline)@, ip_hosts_rules(values@.take(i as int), encap)),
            old(pipeline).wf() ==> pipeline.wf(),
        decreases values.len() - i,
    {
        proof {
            assert(values@.take(i + 1).drop_last() =~= values@.take(i as int));
            install_all_concat(
                old(pipeline)@,
                ip_hosts_rules(values@.take(i as int), encap),
                ip_host_rules(values@[i as int], encap),
            );
        }
        set_ip_host(pipeline, values[i], encap);
        i += 1;
    }
    proof {
        assert(values@.take(i as int) =~= values@);
    }
}

/// The entries that restrict the IP protocol to each of `values` in turn.
pub open spec fn ip_protos_rules(values: Seq<IpProto>, encap: bool) -> Seq<Rule>
    decreases values.len(),
{
    if values.len() == 0 {
        Seq::empty()
    } else {
        ip_protos_rules(values.drop_last(), encap) + ip_proto_rules(
            values.last().spec_code(),
            encap,
        )
    }
}

fn ip_protos(pipeline: &mut Pipeline, values: &Vec<IpProto>, encap: bool)
    ensures
        final(pipeline)@ == install_all(old(pipeline)@, ip_protos_rules(values@, encap)),
        old(pipeline).wf() ==> final(pipeline).wf(),
{
    let mut i: usize = 0;
    while i < values.len()
        invariant
            i <= values.len(),
            pipeline@ == install_all(
                old(pipeline)@,
                ip_protos_rules(values@.take(i as int), encap),
            ),
            old(pipeline).wf() ==> pipeline.wf(),
        decreases values.len() - i,
    {
        proof {
            assert(values@.take(i + 1).drop_last() =~= values@.take(i as int));
            install_all_concat(
                old(pipeline)@,
                ip_protos_rules(values@.take(i as int), encap),
                ip_proto_rules(values@[i as int].spec_code(), encap),
            );
        }
        ip_proto(pipeline, values[i].code(), encap);
        i += 1;
    }
    proof {
        assert(values@.take(i as int) =~= values@);
    }
}

/// The entries that restrict the source port to each of `values` in turn.
pub open spec fn src_ports_rules(values: Seq<u16>, encap: bool) -> Seq<Rule>
    decreases values.len(),
{
    if values.len() == 0 {
        Seq::empty()
    } else {
        src_ports_rules(values.drop_last(), encap) + src_port_rules(values.last(), encap)
    }
}

fn src_ports(pipeline: &mut Pipeline, values: &Vec<u16>, encap: bool)
    ensures
        final(pipeline)@ == install_all(old(pipeline)@, src_ports_rules(values@, encap)),
        old(pipeline).wf() ==> final(pipeline).wf(),
{
    let mut i: usize = 0;
    while i < values.len()
        invariant
            i <= values.len(),
            pipeline@ == install_all(
                old(pipeline)@,
                src_ports_rules(values@.take(i as int), encap),
            ),
            old(pipeline).wf() ==> pipeline.wf(),
        decreases values.len() - i,
    {
        proof {
            assert(values@.take(i + 1).drop_last() =~= values@.take(i as int));
            install_all_concat(
                old(pipeline)@,
                src_ports_rules(values@.take(i as int), encap),
                src_port_rules(values@[i as int], encap),
            );
        }
        src_port(pipeline, values[i], encap);
        i += 1;
    }
    proof {
        assert(values@.take(i as int) =~= values@);
    }
}

/// The entries that restrict the destination port to each of `values` in turn.
pub open spec fn dst_ports_rules(values: Seq<u16>, encap: bool) -> Seq<Rule>
    decreases values.len(),
{
    if values.len() == 0 {
        Seq::empty()
    } else {
        dst_ports_rules(values.drop_last(), encap) + dst_port_rules(values.last(), encap)
    }
}

fn dst_ports(pipeline: &mut Pipeline, values: &Vec<u16>, encap: bool)
    ensures
        final(pipeline)@ == install_all(old(pipeline)@, dst_ports_rules(values@, encap)),
        old(pipeline).wf() ==> final(pipeline).wf(),
{
    let mut i: usize = 0;
    while i < values.len()
        invariant
            i <= values.len(),
            pipeline@ == install_all(
                old(pipeline)@,
                dst_ports_rules(values@.take(i as int), encap),
            ),
            old(pipeline).wf() ==> pipeline.wf(),
        decreases values.len() - i,
    {
        proof {
            assert(values@.take(i + 1).drop_last() =~= values@.take(i as int));
            install_all_concat(
                old(pipeline)@,
                dst_ports_rules(values@.take(i as int), encap),
                dst_port_rules(values@[i as int], encap),
            );
        }
        dst_port(pipeline, values[i], encap);
        i += 1;
    }
    proof {
        assert(values@.take(i as int) =~= values@);
    }
}

/// The entries that ask for each of `values` in turn as source or as destination port.
pub open spec fn ports_rules(values: Seq<u16>, encap: bool) -> Seq<Rule>
    decreases values.len(),
{
    if values.len() == 0 {
        Seq::empty()
    } else {
        ports_rules(values.drop_last(), encap) + port_rules(values.last(), encap)
    }
}

fn ports(pipeline: &mut Pipeline, values: &Vec<u16>, encap: bool)
    ensures
        final(pipeline)@ == install_all(old(pipeline)@, ports_rules(values@, encap)),
        old(pipeline).wf() ==> final(pipeline).wf(),
{
    let mut i: usize = 0;
    while i < values.len()
        invariant
            i <= values.len(),
            pipeline@ == install_all(old(pipeline)@, ports_rules(values@.take(i as int), encap)),
            old(pipeline).wf() ==> pipeline.wf(),
        decreases values.len() - i,
    {
        proof {
            assert(values@.take(i + 1).drop_last() =~= values@.take(i as int));
            install_all_concat(
                old(pipeline)@,
                ports_rules(values@.take(i as int), encap),
                port_rules(values@[i as int], encap),
            );
        }
        port(pipeline, values[i], encap);
        i += 1;
    }
    proof {
        assert(values@.take(i as int) =~= values@);
    }
}

/// The entries that restrict the application layer protocol to each of `values` in turn.
pub open spec fn app_protos_rules(values: Seq<Alp>, encap: bool) -> Seq<Rule>
    decreases values.len(),
{
    if values.len() == 0 {
        Seq::empty()
    } else {
        app_protos_rules(values.drop_last(), encap) + app_proto_rules(
            values.last().spec_code(),
            encap,
        )
    }
}

fn app_protos(pipeline: &mut Pipeline, values: &Vec<Alp>, encap: bool)
    ensures
        final(pipeline)@ == install_all(old(pipeline)@, app_protos_rules(values@, encap)),
        old(pipeline).wf() ==> final(pipeline).wf(),
{
    let mut i: usize = 0;
    while i < values.len()
        invariant
            i <= values.len(),
            pipeline@ == install_all(
                old(pipeline)@,
                app_protos_rules(values@.take(i as int), encap),
            ),
            old(pipeline).wf() ==> pipeline.wf(),
        decreases values.len() - i,
    {
        proof {
            assert(values@.take(i + 1).drop_last() =~= values@.take(i as int));
            install_all_concat(
                old(pipeline)@,
                app_protos_rules(values@.take(i as int), encap),
                app_proto_rules(values@[i as int].spec_code(), encap),
            );
        }
        app_proto(pipeline, values[i].code(), encap);
        i += 1;
    }
    proof {
        assert(values@.take(i as int) =~= values@);
    }
}

/// The entries that restrict the VLAN identifier to each of `values` in turn.
pub open spec fn vlan_vids_rules(values: Seq<u16>) -> Seq<Rule>
    decreases values.len(),
{
    if values.len() == 0 {
        Seq::empty()
    } else {
        vlan_vids_rules(values.drop_last()) + vlan_vid_rules(values.last())
    }
}

fn vlan_vids(pipeline: &mut Pipeline, values: &Vec<u16>)
    ensures
        final(pipeline)@ == install_all(old(pipeline)@, vlan_vids_rules(values@)),
        old(pipeline).wf() ==> final(pipeline).wf(),
{
    let mut i: usize = 0;
    while i < values.len()
        invariant
            i <= values.len(),
            pipeline@ == install_all(old(pipeline)@, vlan_vids_rules(values@.take(i as int))),
            old(pipeline).wf() ==> pipeline.wf(),
        decreases values.len() - i,
    {
        proof {
            assert(values@.take(i + 1).drop_last() =~= values@.take(i as int));
            install_all_concat(
                old(pipeline)@,
                vlan_vids_rules(values@.take(i as int)),
                vlan_vid_rules(values@[i as int]),
            );
        }
        vlan_vid(pipeline, values[i]);
        i += 1;
    }
    proof {
        assert(values@.take(i as int) =~= values@);
    }
}

/// The entries that restrict the ethertype to each of `values` in turn.
pub open spec fn eth_types_rules(values: Seq<Ethertype>, encap: bool) -> Seq<Rule>
    decreases values.len(),
{
    if values.len() == 0 {
        Seq::empty()
    } else {
        eth_types_rules(values.drop_last(), encap) + ethtype_rules(
            values.last().spec_code(),
            encap,
        )
    }
}

fn eth_types(pipeline: &mut Pipeline, values: &Vec<Ethertype>, encap: bool)
    ensures
        final(pipeline)@ == install_all(old(pipeline)@, eth_types_rules(values@, encap)),
        old(pipeline).wf() ==> final(pipeline).wf(),
{
    let mut i: usize = 0;
    while i < values.len()
        invariant
            i <= values.len(),
            pipeline@ == install_all(
                old(pipeline)@,
                eth_types_rules(values@.take(i as int), encap),
            ),
            old(pipeline).wf() ==> pipeline.wf(),
        decreases values.len() - i,
    {
        proof {
            assert(values@.take(i + 1).drop_last() =~= values@.take(i as int));
            install_all_concat(
                old(pipeline)@,
                eth_types_rules(values@.take(i as int), encap),
                ethtype_rules(values@[i as int].spec_code(), encap),
            );
        }
        ethtype_only(pipeline, values[i].code(), encap);
        i += 1;
    }
    proof {
        assert(values@.take(i as int) =~= values@);
    }
}

/// The entries of a dimension that is switched on or off: `rules` where `on`
/// holds, none else.
pub open spec fn switched(on: bool, rules: Seq<Rule>) -> Seq<Rule> {
    if on {
        rules
    } else {
        Seq::empty()
    }
}

/// The entries that restrict the ethertype to the one asked for, if any.
pub open spec fn eth_type_rules(eth_type: Option<Ethertype>, encap: bool) -> Seq<Rule> {
    match eth_type {
        Some(e) => ethtype_rules(e.spec_code(), encap),
        None => Seq::empty(),
    }
}

/// The entries for the outer frame, dimension by dimension.
pub open spec fn outer_rules(cfg: Snoop) -> Seq<Rule> {
    let r = eth_type_rules(cfg.eth_type, false);
    let r = r + ip_srcs_rules(cfg.ip_src@, false);
    let r = r + ip_dsts_rules(cfg.ip_dst@, false);
    let r = r + ip_hosts_rules(cfg.ip_host@, false);
    let r = r + ip_protos_rules(cfg.ip_proto@, false);
    let r = r + src_ports_rules(cfg.src_port@, false);
    let r = r + dst_ports_rules(cfg.dst_port@, false);
    let r = r + ports_rules(cfg.port@, false);
    let r = r + app_protos_rules(cfg.alp@, false);
    let r = r + switched(cfg.vlan, ethtype_rules(0x8100, false));
    let r = r + vlan_vids_rules(cfg.vid@);
    let r = r + switched(cfg.v4, ethtype_rules(0x0800, false));
    let r = r + switched(cfg.v6, ethtype_rules(0x86dd, false));
    r + switched(cfg.arp, ethtype_rules(0x0806, false))
}

/// The entries for the inner frame, dimension by dimension. Each dimension
/// of the inner frame is asked for on its own: what is asked of the outer
/// frame puts nothing into a table of the inner frame.
pub open spec fn inner_rules(cfg: Snoop) -> Seq<Rule> {
    let r = eth_types_rules(cfg.inner_eth_type@, true);
    let r = r + ip_srcs_rules(cfg.inner_ip_src@, true);
    let r = r + ip_dsts_rules(cfg.inner_ip_dst@, true);
    let r = r + ip_hosts_rules(cfg.inner_ip_host@, true);
    let r = r + ip_protos_rules(cfg.inner_ip_proto@, true);
    let r = r + src_ports_rules(cfg.inner_src_port@, true);
    let r = r + dst_ports_rules(cfg.inner_dst_port@, true);
    let r = r + ports_rules(cfg.inner_port@, true);
    let r = r + app_protos_rules(cfg.inner_alp@, true);
    let r = r + switched(cfg.inner_v4, ethtype_rules(0x0800, true));
    let r = r + switched(cfg.inner_v6, ethtype_rules(0x86dd, true));
    r + switched(cfg.inner_arp, ethtype_rules(0x0806, true))
}

/// What a filter specification asks to be installed, in order: the entries
/// for the outer frame, then those for the inner frame. An entry stands in
/// this list as often as it is asked for.
pub open spec fn filter_rules(cfg: Snoop) -> Seq<Rule> {
    outer_rules(cfg) + inner_rules(cfg)
}

/// The match entries of a filter specification: what it asks for, installed
/// in order into empty tables, each entry once.
pub open spec fn compiled(cfg: Snoop) -> Seq<Rule> {
    install_all(Seq::empty(), filter_rules(cfg))
}

fn eth_type_filter(pipeline: &mut Pipeline, eth_type: Option<Ethertype>, encap: bool)
    ensures
        final(pipeline)@ == install_all(old(pipeline)@, eth_type_rules(eth_type, encap)),
        old(pipeline).wf() ==> final(pipeline).wf(),
{
    if let Some(e) = eth_type {
        ethtype_only(pipeline, e.code(), encap);
    }
}

fn ethtype_switch(pipeline: &mut Pipeline, on: bool, ethtype: u16, encap: bool)
    ensures
        final(pipeline)@ == install_all(old(pipeline)@, switched(on, ethtype_rules(ethtype, encap))),
        old(pipeline).wf() ==> final(pipeline).wf(),
{
    if on {
        ethtype_only(pipeline, ethtype, encap);
    }
}

fn install_outer(pipeline: &mut Pipeline, cfg: &Snoop)
    ensures
        final(pipeline)@ == install_all(old(pipeline)@, outer_rules(*cfg)),
        old(pipeline).wf() ==> final(pipeline).wf(),
{
    let ghost start = pipeline@;
    eth_type_filter(pipeline, cfg.eth_type, false);
    let ghost r = eth_type_rules(cfg.eth_type, false);
    ip_srcs(pipeline, &cfg.ip_src, false);
    proof {
        install_all_concat(start, r, ip_srcs_rules(cfg.ip_src@, false));
        r = r + ip_srcs_rules(cfg.ip_src@, false);
    }
    ip_dsts(pipeline, &cfg.ip_dst, false);
    proof {
        install_all_concat(start, r, ip_dsts_rules(cfg.ip_dst@, false));
        r = r + ip_dsts_rules(cfg.ip_dst@, false);
    }
    ip_hosts(pipeline, &cfg.ip_host, false);
    proof {
        install_all_concat(start, r, ip_hosts_rules(cfg.ip_host@, false));
        r = r + ip_hosts_rules(cfg.ip_host@, false);
    }
    ip_protos(pipeline, &cfg.ip_proto, false);
    proof {
        install_all_concat(start, r, ip_protos_rules(cfg.ip_proto@, false));
        r = r + ip_protos_rules(cfg.ip_proto@, false);
    }
    src_ports(pipeline, &cfg.src_port, false);
    proof {
        install_all_concat(start, r, src_ports_rules(cfg.src_port@, false));
        r = r + src_ports_rules(cfg.src_port@, false);
    }
    dst_ports(pipeline, &cfg.dst_port, false);
    proof {
        install_all_concat(start, r, dst_ports_rules(cfg.dst_port@, false));
        r = r + dst_ports_rules(cfg.dst_port@, false);
    }
    ports(pipeline, &cfg.port, false);
    proof {
        install_all_concat(start, r, ports_rules(cfg.port@, false));
        r = r + ports_rules(cfg.port@, false);
    }
    app_protos(pipeline, &cfg.alp, false);
    proof {
        install_all_concat(start, r, app_protos_rules(cfg.alp@, false));
        r = r + app_protos_rules(cfg.alp@, false);
    }
    ethtype_switch(pipeline, cfg.vlan, 0x8100, false);
    proof {
        install_all_concat(start, r, switched(cfg.vlan, ethtype_rules(0x8100, false)));
        r = r + switched(cfg.vlan, ethtype_rules(0x8100, false));
    }
    vlan_vids(pipeline, &cfg.vid);
    proof {
        install_all_concat(start, r, vlan_vids_rules(cfg.vid@));
        r = r + vlan_vids_rules(cfg.vid@);
    }
    ethtype_switch(pipeline, cfg.v4, 0x0800, false);
    proof {
        install_all_concat(start, r, switched(cfg.v4, ethtype_rules(0x0800, false)));
        r = r + switched(cfg.v4, ethtype_rules(0x0800, false));
    }
    ethtype_switch(pipeline, cfg.v6, 0x86dd, false);
    proof {
        install_all_concat(start, r, switched(cfg.v6, ethtype_rules(0x86dd, false)));
        r = r + switched(cfg.v6, ethtype_rules(0x86dd, false));
    }
    ethtype_switch(pipeline, cfg.arp, 0x0806, false);
    proof {
        install_all_concat(start, r, switched(cfg.arp, ethtype_rules(0x0806, false)));
    }
}

fn install_inner(pipeline: &mut Pipeline, cfg: &Snoop)
    ensures
        final(pipeline)@ == install_all(old(pipeline)@, inner_rules(*cfg)),
        old(pipeline).wf() ==> final(pipeline).wf(),
{
    let ghost start = pipeline@;
    eth_types(pipeline, &cfg.inner_eth_type, true);
    let ghost r = eth_types_rules(cfg.inner_eth_type@, true);
    ip_srcs(pipeline, &cfg.inner_ip_src, true);
    proof {
        install_all_concat(start, r, ip_srcs_rules(cfg.inner_ip_src@, true));
        r = r + ip_srcs_rules(cfg.inner_ip_src@, true);
    }
    ip_dsts(pipeline, &cfg.inner_ip_dst, true);
    proof {
        install_all_concat(start, r, ip_dsts_rules(cfg.inner_ip_dst@, true));
        r = r + ip_dsts_rules(cfg.inner_ip_dst@, true);
    }
    ip_hosts(pipeline, &cfg.inner_ip_host, true);
    proof {
        install_all_concat(start, r, ip_hosts_rules(cfg.inner_ip_host@, true));
        r = r + ip_hosts_rules(cfg.inner_ip_host@, true);
    }
    ip_protos(pipeline, &cfg.inner_ip_proto, true);
    proof {
        install_all_concat(start, r, ip_protos_rules(cfg.inner_ip_proto@, true));
        r = r + ip_protos_rules(cfg.inner_ip_proto@, true);
    }
    src_ports(pipeline, &cfg.inner_src_port, true);
    proof {
        install_all_concat(start, r, src_ports_rules(cfg.inner_src_port@, true));
        r = r + src_ports_rules(cfg.inner_src_port@, true);
    }
    dst_ports(pipeline, &cfg.inner_dst_port, true);
    proof {
        install_all_concat(start, r, dst_ports_rules(cfg.inner_dst_port@, true));
        r = r + dst_ports_rules(cfg.inner_dst_port@, true);
    }
    ports(pipeline, &cfg.inner_port, true);
    proof {
        install_all_concat(start, r, ports_rules(cfg.inner_port@, true));
        r = r + ports_rules(cfg.inner_port@, true);
    }
    app_protos(pipeline, &cfg.inner_alp, true);
    proof {
        install_all_concat(start, r, app_protos_rules(cfg.inner_alp@, true));
        r = r + app_protos_rules(cfg.inner_alp@, true);
    }
    ethtype_switch(pipeline, cfg.inner_v4, 0x0800, true);
    proof {
        install_all_concat(start, r, switched(cfg.inner_v4, ethtype_rules(0x0800, true)));
        r = r + switched(cfg.inner_v4, ethtype_rules(0x0800, true));
    }
    ethtype_switch(pipeline, cfg.inner_v6, 0x86dd, true);
    proof {
        install_all_concat(start, r, switched(cfg.inner_v6, ethtype_rules(0x86dd, true)));
        r = r + switched(cfg.inner_v6, ethtype_rules(0x86dd, true));
    }
    ethtype_switch(pipeline, cfg.inner_arp, 0x0806, true);
    proof {
        install_all_concat(start, r, switched(cfg.inner_arp, ethtype_rules(0x0806, true)));
    }
}

/// Installs what a filter specification asks for into `pipeline`: first the
/// entries for the outer frame, then those for the inner frame, each unless
/// the tables hold it already.
pub fn install_filters(pipeline: &mut Pipeline, cfg: &Snoop)
    ensures
        final(pipeline)@ == install_all(old(pipeline)@, filter_rules(*cfg)),
        old(pipeline).wf() ==> final(pipeline).wf(),
{
    install_outer(pipeline, cfg);
    install_inner(pipeline, cfg);
    proof {
        install_all_concat(old(pipeline)@, outer_rules(*cfg), inner_rules(*cfg));
    }
}

/// Compiles a filter specification: the tables that hold what it asks for
/// and nothing else, each entry once. A dimension that is not populated
/// installs nothing, so that the default action of its table governs.
pub fn init_pipeline(cfg: &Snoop) -> (r: Pipeline)
    ensures
        r@ == compiled(*cfg),
        r.wf(),
{
    let mut pipeline = Pipeline::new();
    install_filters(&mut pipeline, cfg);
    pipeline
}

/// How many of `rules` belong to `table` and have the given action and
/// priority.
pub open spec fn count(rules: Seq<Rule>, table: Table, action: Action, priority: u32) -> nat
    decreases rules.len(),
{
    if rules.len() == 0 {
        0
    } else {
        let rest = count(rules.drop_last(), table, action, priority);
        if rules.last().table == table && rules.last().action == action && rules.last().priority
            == priority {
            rest + 1
        } else {
            rest
        }
    }
}

/// Whether two filter specifications ask for the same: every dimension that
/// the compiler reads holds the same values in the same order.
pub open spec fn same_filters(a: Snoop, b: Snoop) -> bool {
    &&& a.eth_type == b.eth_type
    &&& a.ip_src@ == b.ip_src@
    &&& a.ip_dst@ == b.ip_dst@
    &&& a.ip_host@ == b.ip_host@
    &&& a.ip_proto@ == b.ip_proto@
    &&& a.src_port@ == b.src_port@
    &&& a.dst_port@ == b.dst_port@
    &&& a.port@ == b.port@
    &&& a.alp@ == b.alp@
    &&& a.vlan == b.vlan
    &&& a.vid@ == b.vid@
    &&& a.v4 == b.v4
    &&& a.v6 == b.v6
    &&& a.arp == b.arp
    &&& a.inner_eth_type@ == b.inner_eth_type@
    &&& a.inner_ip_src@ == b.inner_ip_src@
    &&& a.inner_ip_dst@ == b.inner_ip_dst@
    &&& a.inner_ip_host@ == b.inner_ip_host@
    &&& a.inner_ip_proto@ == b.inner_ip_proto@
    &&& a.inner_src_port@ == b.inner_src_port@
    &&& a.inner_dst_port@ == b.inner_dst_port@
    &&& a.inner_port@ == b.inner_port@
    &&& a.inner_alp@ == b.inner_alp@
    &&& a.inner_v4 == b.inner_v4
    &&& a.inner_v6 == b.inner_v6
    &&& a.inner_arp == b.inner_arp
}

/// Entries of which none is held twice, with at most one fallback for each
/// table, are all installed into empty tables, in their order.
pub proof fn install_fresh(asked: Seq<Rule>)
    requires
        asked.no_duplicates(),
        one_fallback_per_table(asked),
    ensures
        install_all(Seq::empty(), asked) == asked,
    decreases asked.len(),
{
    if asked.len() > 0 {
        let before = asked.drop_last();
        assert forall|i: int, j: int|
            0 <= i < j < before.len() && (#[trigger] before[i]).action == Action::Drop && (
            #[trigger] before[j]).action == Action::Drop implies before[i].table
            != before[j].table by {
            assert(before[i] == asked[i] && before[j] == asked[j]);
        }
        install_fresh(before);
        let last = asked.last();
        assert(last == asked[asked.len() - 1]);
        if satisfied(before, last) {
            if last.action == Action::Drop {
                let i = choose|i: int|
                    0 <= i < before.len() && (#[trigger] before[i]).table == last.table
                        && before[i].action == Action::Drop;
                assert(before[i] == asked[i]);
            } else {
                let i = choose|i: int| 0 <= i < before.len() && before[i] == last;
                assert(asked[i] == asked[asked.len() - 1]);
            }
        }
        assert(before.push(last) =~= asked);
    } else {
        assert(asked =~= Seq::<Rule>::empty());
    }
}

/// A filter on one value of one field puts exactly two entries into empty
/// tables, both into the table of the field: one that keeps, at priority
/// 100, with the value tagged as exact, and one fallback that drops, at
/// priority 0, with the same bytes behind the tag that leaves the field free.
pub proof fn single_value_filter(table: Table, value: Seq<u8>)
    ensures
        ({
            let rules = install_all(Seq::empty(), equality_rules(table, value));
            &&& rules == seq![
                keep_rule(table, seq![1u8] + value),
                drop_rule(table, seq![0u8] + value),
            ]
            &&& count(rules, table, Action::Keep, KEEP_PRIORITY) == 1
            &&& count(rules, table, Action::Drop, DROP_PRIORITY) == 1
            &&& forall|i: int| 0 <= i < rules.len() ==> (#[trigger] rules[i]).table == table
        }),
{
    let asked = equality_rules(table, value);
    install_fresh(asked);
    assert(asked.drop_last() =~= seq![asked[0]]);
    assert(asked.drop_last().drop_last() =~= Seq::<Rule>::empty());
    reveal_with_fuel(count, 3);
}

/// A filter on one IP protocol number puts exactly one entry that keeps, at
/// priority 100, and one fallback that drops, at priority 0, into the table
/// of each address family, and nothing else.
pub proof fn ip_proto_filter(proto: u8, encap: bool)
    ensures
        ({
            let rules = install_all(Seq::empty(), ip_proto_rules(proto, encap));
            let v4 = layer_table(Table::Ipv4Proto, Table::InnerIpv4Proto, encap);
            let v6 = layer_table(Table::Ipv6Proto, Table::InnerIpv6Proto, encap);
            &&& rules == seq![
                keep_rule(v4, seq![1u8, proto]),
                keep_rule(v6, seq![1u8, proto]),
                drop_rule(v4, seq![0u8, proto]),
                drop_rule(v6, seq![0u8, proto]),
            ]
            &&& count(rules, v4, Action::Keep, KEEP_PRIORITY) == 1
            &&& count(rules, v4, Action::Drop, DROP_PRIORITY) == 1
            &&& count(rules, v6, Action::Keep, KEEP_PRIORITY) == 1
            &&& count(rules, v6, Action::Drop, DROP_PRIORITY) == 1
        }),
{
    let asked = ip_proto_rules(proto, encap);
    install_fresh(asked);
    assert(exact(seq![proto]) =~= seq![1u8, proto]);
    assert(free(seq![proto]) =~= seq![0u8, proto]);
    assert(asked.drop_last() =~= seq![asked[0], asked[1], asked[2]]);
    assert(asked.drop_last().drop_last() =~= seq![asked[0], asked[1]]);
    assert(asked.drop_last().drop_last().drop_last() =~= seq![asked[0]]);
    assert(asked.drop_last().drop_last().drop_last().drop_last() =~= Seq::<Rule>::empty());
    reveal_with_fuel(count, 5);
}

/// A filter on a value in either direction puts exactly three entries into
/// empty tables: two that keep, at priority 100, the first with the source
/// tagged as exact and the destination as free, the second with the two tags
/// swapped, and one fallback that drops, at priority 0, with both tagged as
/// free. Each of the two fields holds the bytes of the value in every key.
pub proof fn either_direction_filter(table: Table, value: Seq<u8>)
    ensures
        ({
            let rules = install_all(Seq::empty(), either_rules(table, value));
            &&& rules == seq![
                keep_rule(table, seq![1u8] + value + seq![0u8] + value),
                keep_rule(table, seq![0u8] + value + seq![1u8] + value),
                drop_rule(table, seq![0u8] + value + seq![0u8] + value),
            ]
            &&& rules[0] != rules[1]
            &&& forall|i: int|
                0 <= i < 3 ==> (#[trigger] rules[i]).key.len() == 2 * (1 + value.len())
            &&& count(rules, table, Action::Keep, KEEP_PRIORITY) == 2
            &&& count(rules, table, Action::Drop, DROP_PRIORITY) == 1
        }),
{
    let asked = either_rules(table, value);
    assert((exact(value) + free(value))[0] == 1u8);
    assert((free(value) + exact(value))[0] == 0u8);
    assert(asked[0].key != asked[1].key);
    assert(exact(value) + free(value) =~= seq![1u8] + value + seq![0u8] + value);
    assert(free(value) + exact(value) =~= seq![0u8] + value + seq![1u8] + value);
    assert(free(value) + free(value) =~= seq![0u8] + value + seq![0u8] + value);
    install_fresh(asked);
    assert(asked.drop_last() =~= seq![asked[0], asked[1]]);
    assert(asked.drop_last().drop_last() =~= seq![asked[0]]);
    assert(asked.drop_last().drop_last().drop_last() =~= Seq::<Rule>::empty());
    reveal_with_fuel(count, 4);
}

/// Compiling is a function of what the filter specification asks for: two
/// specifications that ask for the same compile to the same entries, byte
/// for byte and in the same order.
pub proof fn compile_is_deterministic(a: Snoop, b: Snoop)
    requires
        same_filters(a, b),
    ensures
        compiled(a) == compiled(b),
{
}

/// Installing a filter specification into tables that hold its entries
/// already changes nothing, whatever else the tables hold.
pub proof fn install_twice_is_once(rules: Seq<Rule>, cfg: Snoop)
    ensures
        install_all(install_all(rules, filter_rules(cfg)), filter_rules(cfg)) == install_all(
            rules,
            filter_rules(cfg),
        ),
        install_all(compiled(cfg), filter_rules(cfg)) == compiled(cfg),
{
    install_all_idempotent(rules, filter_rules(cfg));
    install_all_idempotent(Seq::empty(), filter_rules(cfg));
}

/// The compiled tables hold no entry twice and no second fallback in any
/// table, however often and with however many values a field is asked for.
pub proof fn compiled_has_no_duplicates(cfg: Snoop)
    ensures
        compiled(cfg).no_duplicates(),
        one_fallback_per_table(compiled(cfg)),
{
    install_all_no_duplicates(Seq::empty(), filter_rules(cfg));
}

/// A filter specification in which no dimension is populated compiles to no
/// entry at all.
pub proof fn unfiltered_compiles_to_nothing(cfg: Snoop)
    requires
        cfg.is_unfiltered(),
    ensures
        filter_rules(cfg) == Seq::<Rule>::empty(),
        compiled(cfg) == Seq::<Rule>::empty(),
{
    assert(cfg.ip_src@ =~= Seq::<IpAddr>::empty());
    assert(outer_rules(cfg) =~= Seq::<Rule>::empty());
    assert(inner_rules(cfg) =~= Seq::<Rule>::empty());
    assert(filter_rules(cfg) =~= Seq::<Rule>::empty());
}

/// Two values that are asked of one field share the fallback of its table:
/// the tables hold the fallback of the first value, and none for the second.
pub proof fn fallback_is_shared(table: Table, a: Seq<u8>, b: Seq<u8>)
    ensures
        ({
            let rules = install_all(
                Seq::empty(),
                equality_rules(table, a) + equality_rules(table, b),
            );
            &&& rules == installed(equality_rules(table, a), keep_rule(table, exact(b)))
            &&& rules[1] == drop_rule(table, free(a))
            &&& count(rules, table, Action::Drop, DROP_PRIORITY) == 1
        }),
{
    let first = equality_rules(table, a);
    let second = equality_rules(table, b);
    single_value_filter(table, a);
    install_all_concat(Seq::empty(), first, second);
    assert(second.drop_last() =~= seq![second[0]]);
    assert(second.drop_last().drop_last() =~= Seq::<Rule>::empty());
    reveal_with_fuel(install_all, 3);
    let keeps = installed(first, second[0]);
    assert(holds_fallback(keeps, table)) by {
        assert(keeps[1].table == table && keeps[1].action == Action::Drop);
    }
    assert(install_all(first, second) == keeps);
    assert(first.drop_last() =~= seq![first[0]]);
    assert(first.drop_last().drop_last() =~= Seq::<Rule>::empty());
    if satisfied(first, second[0]) {
        reveal_with_fuel(count, 3);
    } else {
        assert(keeps.drop_last() =~= first);
        reveal_with_fuel(count, 4);
    }
}

/// Whether a filter specification populates the dimension that `table`
/// belongs to.
pub open spec fn populates(cfg: Snoop, table: Table) -> bool {
    match table {
        Table::EthEthertype => cfg.eth_type is Some || cfg.vlan || cfg.v4 || cfg.v6 || cfg.arp,
        Table::InnerEthEthertype => cfg.inner_eth_type@.len() > 0 || cfg.inner_v4 || cfg.inner_v6
            || cfg.inner_arp,
        Table::Ipv4Src | Table::Ipv6Src => cfg.ip_src@.len() > 0,
        Table::InnerIpv4Src | Table::InnerIpv6Src => cfg.inner_ip_src@.len() > 0,
        Table::Ipv4Dst | Table::Ipv6Dst => cfg.ip_dst@.len() > 0,
        Table::InnerIpv4Dst | Table::InnerIpv6Dst => cfg.inner_ip_dst@.len() > 0,
        Table::Ipv4Host | Table::Ipv6Host => cfg.ip_host@.len() > 0,
        Table::InnerIpv4Host | Table::InnerIpv6Host => cfg.inner_ip_host@.len() > 0,
        Table::Ipv4Proto | Table::Ipv6Proto => cfg.ip_proto@.len() > 0,
        Table::InnerIpv4Proto | Table::InnerIpv6Proto => cfg.inner_ip_proto@.len() > 0,
        Table::PortsSrc => cfg.src_port@.len() > 0,
        Table::InnerPortsSrc => cfg.inner_src_port@.len() > 0,
        Table::PortsDst => cfg.dst_port@.len() > 0,
        Table::InnerPortsDst => cfg.inner_dst_port@.len() > 0,
        Table::PortsPort => cfg.port@.len() > 0,
        Table::InnerPortsPort => cfg.inner_port@.len() > 0,
        Table::AppProto => cfg.alp@.len() > 0,
        Table::InnerAppProto => cfg.inner_alp@.len() > 0,
        Table::VlanVid => cfg.vid@.len() > 0,
    }
}

/// What is held in two lists put together is held in one of them.
pub proof fn concat_contains(first: Seq<Rule>, second: Seq<Rule>, rule: Rule)
    requires
        (first + second).contains(rule),
    ensures
        first.contains(rule) || second.contains(rule),
{
    let i = choose|i: int| 0 <= i < (first + second).len() && (first + second)[i] == rule;
    if i < first.len() {
        assert(first[i] == rule);
    } else {
        assert(second[i - first.len()] == rule);
    }
}

/// The tables hold nothing that was not held before or asked for.
pub proof fn install_all_only_asked(rules: Seq<Rule>, more: Seq<Rule>, rule: Rule)
    requires
        install_all(rules, more).contains(rule),
    ensures
        rules.contains(rule) || more.contains(rule),
    decreases more.len(),
{
    if more.len() > 0 {
        let before = install_all(rules, more.drop_last());
        let after = install_all(rules, more);
        assert(more[more.len() - 1] == more.last());
        if before.contains(rule) {
            install_all_only_asked(rules, more.drop_last(), rule);
            if more.drop_last().contains(rule) {
                let i = choose|i: int|
                    0 <= i < more.drop_last().len() && more.drop_last()[i] == rule;
                assert(more[i] == rule);
            }
        } else {
            let i = choose|i: int| 0 <= i < after.len() && after[i] == rule;
            if i < before.len() {
                assert(before[i] == rule);
            }
        }
    }
}

/// The entries of this dimension go to its own tables, and there are none
/// where no value is asked for.
pub proof fn eth_types_rules_tables(values: Seq<Ethertype>, encap: bool, rule: Rule)
    requires
        eth_types_rules(values, encap).contains(rule),
    ensures
        values.len() > 0,
        rule.table == layer_table(Table::EthEthertype, Table::InnerEthEthertype, encap) || rule.table == layer_table(
            Table::EthEthertype,
            Table::InnerEthEthertype,
            encap,
        ),
    decreases values.len(),
{
    if values.len() > 0 {
        let before = eth_types_rules(values.drop_last(), encap);
        let last = ethtype_rules(values.last().spec_code(), encap);
        concat_contains(before, last, rule);
        if before.contains(rule) {
            eth_types_rules_tables(values.drop_last(), encap, rule);
        } else {
            let i = choose|i: int| 0 <= i < last.len() && last[i] == rule;
        }
    }
}

/// The entries of this dimension go to its own tables, and there are none
/// where no value is asked for.
pub proof fn ip_srcs_rules_tables(values: Seq<IpAddr>, encap: bool, rule: Rule)
    requires
        ip_srcs_rules(values, encap).contains(rule),
    ensures
        values.len() > 0,
        rule.table == layer_table(Table::Ipv4Src, Table::InnerIpv4Src, encap) || rule.table == layer_table(
            Table::Ipv6Src,
            Table::InnerIpv6Src,
            encap,
        ),
    decreases values.len(),
{
    if values.len() > 0 {
        let before = ip_srcs_rules(values.drop_last(), encap);
        let last = ip_src_rules(values.last(), encap);
        concat_contains(before, last, rule);
        if before.contains(rule) {
            ip_srcs_rules_tables(values.drop_last(), encap, rule);
        } else {
            let i = choose|i: int| 0 <= i < last.len() && last[i] == rule;
        }
    }
}

/// The entries of this dimension go to its own tables, and there are none
/// where no value is asked for.
pub proof fn ip_dsts_rules_tables(values: Seq<IpAddr>, encap: bool, rule: Rule)
    requires
        ip_dsts_rules(values, encap).contains(rule),
    ensures
        values.len() > 0,
        rule.table == layer_table(Table::Ipv4Dst, Table::InnerIpv4Dst, encap) || rule.table == layer_table(
            Table::Ipv6Dst,
            Table::InnerIpv6Dst,
            encap,
        ),
    decreases values.len(),
{
    if values.len() > 0 {
        let before = ip_dsts_rules(values.drop_last(), encap);
        let last = ip_dst_rules(values.last(), encap);
        concat_contains(before, last, rule);
        if before.contains(rule) {
            ip_dsts_rules_tables(values.drop_last(), encap, rule);
        } else {
            let i = choose|i: int| 0 <= i < last.len() && last[i] == rule;
        }
    }
}

/// The entries of this dimension go to its own tables, and there are none
/// where no value is asked for.
pub proof fn ip_hosts_rules_tables(values: Seq<IpAddr>, encap: bool, rule: Rule)
    requires
        ip_hosts_rules(values, encap).contains(rule),
    ensures
        values.len() > 0,
        rule.table == layer_table(Table::Ipv4Host, Table::InnerIpv4Host, encap) || rule.table == layer_table(
            Table::Ipv6Host,
            Table::InnerIpv6Host,
            encap,
        ),
    decreases values.len(),
{
    if values.len() > 0 {
        let before = ip_hosts_rules(values.drop_last(), encap);
        let last = ip_host_rules(values.last(), encap);
        concat_contains(before, last, rule);
        if before.contains(rule) {
            ip_hosts_rules_tables(values.drop_last(), encap, rule);
        } else {
            let i = choose|i: int| 0 <= i < last.len() && last[i] == rule;
        }
    }
}

/// The entries of this dimension go to its own tables, and there are none
/// where no value is asked for.
pub proof fn ip_protos_rules_tables(values: Seq<IpProto>, encap: bool, rule: Rule)
    requires
        ip_protos_rules(values, encap).contains(rule),
    ensures
        values.len() > 0,
        rule.table == layer_table(Table::Ipv4Proto, Table::InnerIpv4Proto, encap) || rule.table == layer_table(
            Table::Ipv6Proto,
            Table::InnerIpv6Proto,
            encap,
        ),
    decreases values.len(),
{
    if values.len() > 0 {
        let before = ip_protos_rules(values.drop_last(), encap);
        let last = ip_proto_rules(values.last().spec_code(), encap);
        concat_contains(before, last, rule);
        if before.contains(rule) {
            ip_protos_rules_tables(values.drop_last(), encap, rule);
        } else {
            let i = choose|i: int| 0 <= i < last.len() && last[i] == rule;
        }
    }
}

/// The entries of this dimension go to its own tables, and there are none
/// where no value is asked for.
pub proof fn src_ports_rules_tables(values: Seq<u16>, encap: bool, rule: Rule)
    requires
        src_ports_rules(values, encap).contains(rule),
    ensures
        values.len() > 0,
        rule.table == layer_table(Table::PortsSrc, Table::InnerPortsSrc, encap) || rule.table == layer_table(
            Table::PortsSrc,
            Table::InnerPortsSrc,
            encap,
        ),
    decreases values.len(),
{
    if values.len() > 0 {
        let before = src_ports_rules(values.drop_last(), encap);
        let last = src_port_rules(values.last(), encap);
        concat_contains(before, last, rule);
        if before.contains(rule) {
            src_ports_rules_tables(values.drop_last(), encap, rule);
        } else {
            let i = choose|i: int| 0 <= i < last.len() && last[i] == rule;
        }
    }
}

/// The entries of this dimension go to its own tables, and there are none
/// where no value is asked for.
pub proof fn dst_ports_rules_tables(values: Seq<u16>, encap: bool, rule: Rule)
    requires
        dst_ports_rules(values, encap).contains(rule),
    ensures
        values.len() > 0,
        rule.table == layer_table(Table::PortsDst, Table::InnerPortsDst, encap) || rule.table == layer_table(
            Table::PortsDst,
            Table::InnerPortsDst,
            encap,
        ),
    decreases values.len(),
{
    if values.len() > 0 {
        let before = dst_ports_rules(values.drop_last(), encap);
        let last = dst_port_rules(values.last(), encap);
        concat_contains(before, last, rule);
        if before.contains(rule) {
            dst_ports_rules_tables(values.drop_last(), encap, rule);
        } else {
            let i = choose|i: int| 0 <= i < last.len() && last[i] == rule;
        }
    }
}

/// The entries of this dimension go to its own tables, and there are none
/// where no value is asked for.
pub proof fn ports_rules_tables(values: Seq<u16>, encap: bool, rule: Rule)
    requires
        ports_rules(values, encap).contains(rule),
    ensures
        values.len() > 0,
        rule.table == layer_table(Table::PortsPort, Table::InnerPortsPort, encap) || rule.table == layer_table(
            Table::PortsPort,
            Table::InnerPortsPort,
            encap,
        ),
    decreases values.len(),
{
    if values.len() > 0 {
        let before = ports_rules(values.drop_last(), encap);
        let last = port_rules(values.last(), encap);
        concat_contains(before, last, rule);
        if before.contains(rule) {
            ports_rules_tables(values.drop_last(), encap, rule);
        } else {
            let i = choose|i: int| 0 <= i < last.len() && last[i] == rule;
        }
    }
}

/// The entries of this dimension go to its own tables, and there are none
/// where no value is asked for.
pub proof fn app_protos_rules_tables(values: Seq<Alp>, encap: bool, rule: Rule)
    requires
        app_protos_rules(values, encap).contains(rule),
    ensures
        values.len() > 0,
        rule.table == layer_table(Table::AppProto, Table::InnerAppProto, encap) || rule.table == layer_table(
            Table::AppProto,
            Table::InnerAppProto,
            encap,
        ),
    decreases values.len(),
{
    if values.len() > 0 {
        let before = app_protos_rules(values.drop_last(), encap);
        let last = app_proto_rules(values.last().spec_code(), encap);
        concat_contains(before, last, rule);
        if before.contains(rule) {
            app_protos_rules_tables(values.drop_last(), encap, rule);
        } else {
            let i = choose|i: int| 0 <= i < last.len() && last[i] == rule;
        }
    }
}

/// The entries of this dimension go to its own table, and there are none
/// where no value is asked for.
pub proof fn vlan_vids_rules_tables(values: Seq<u16>, rule: Rule)
    requires
        vlan_vids_rules(values).contains(rule),
    ensures
        values.len() > 0,
        rule.table == Table::VlanVid,
    decreases values.len(),
{
    if values.len() > 0 {
        let before = vlan_vids_rules(values.drop_last());
        let last = vlan_vid_rules(values.last());
        concat_contains(before, last, rule);
        if before.contains(rule) {
            vlan_vids_rules_tables(values.drop_last(), rule);
        } else {
            let i = choose|i: int| 0 <= i < last.len() && last[i] == rule;
        }
    }
}

/// The entries of an ethertype that is switched on go to the ethertype table
/// of its frame, and there are none where it is switched off.
pub proof fn switch_tables(on: bool, ethtype: u16, encap: bool, rule: Rule)
    requires
        switched(on, ethtype_rules(ethtype, encap)).contains(rule),
    ensures
        on,
        rule.table == layer_table(Table::EthEthertype, Table::InnerEthEthertype, encap),
{
    let rules = switched(on, ethtype_rules(ethtype, encap));
    let i = choose|i: int| 0 <= i < rules.len() && rules[i] == rule;
}

/// What is asked of the outer frame goes to tables of populated dimensions.
pub proof fn outer_rules_tables(cfg: Snoop, rule: Rule)
    requires
        outer_rules(cfg).contains(rule),
    ensures
        populates(cfg, rule.table),
{
    let p0 = eth_type_rules(cfg.eth_type, false);
    let p1 = p0 + ip_srcs_rules(cfg.ip_src@, false);
    let p2 = p1 + ip_dsts_rules(cfg.ip_dst@, false);
    let p3 = p2 + ip_hosts_rules(cfg.ip_host@, false);
    let p4 = p3 + ip_protos_rules(cfg.ip_proto@, false);
    let p5 = p4 + src_ports_rules(cfg.src_port@, false);
    let p6 = p5 + dst_ports_rules(cfg.dst_port@, false);
    let p7 = p6 + ports_rules(cfg.port@, false);
    let p8 = p7 + app_protos_rules(cfg.alp@, false);
    let p9 = p8 + switched(cfg.vlan, ethtype_rules(0x8100, false));
    let p10 = p9 + vlan_vids_rules(cfg.vid@);
    let p11 = p10 + switched(cfg.v4, ethtype_rules(0x0800, false));
    let p12 = p11 + switched(cfg.v6, ethtype_rules(0x86dd, false));
    let p13 = p12 + switched(cfg.arp, ethtype_rules(0x0806, false));
    assert(p13 == outer_rules(cfg));
    concat_contains(p12, switched(cfg.arp, ethtype_rules(0x0806, false)), rule);
    if switched(cfg.arp, ethtype_rules(0x0806, false)).contains(rule) {
        switch_tables(cfg.arp, 0x0806, false, rule);
    } else {
        concat_contains(p11, switched(cfg.v6, ethtype_rules(0x86dd, false)), rule);
        if switched(cfg.v6, ethtype_rules(0x86dd, false)).contains(rule) {
            switch_tables(cfg.v6, 0x86dd, false, rule);
        } else {
            concat_contains(p10, switched(cfg.v4, ethtype_rules(0x0800, false)), rule);
            if switched(cfg.v4, ethtype_rules(0x0800, false)).contains(rule) {
                switch_tables(cfg.v4, 0x0800, false, rule);
            } else {
                concat_contains(p9, vlan_vids_rules(cfg.vid@), rule);
                if vlan_vids_rules(cfg.vid@).contains(rule) {
                    vlan_vids_rules_tables(cfg.vid@, rule);
                } else {
                    concat_contains(p8, switched(cfg.vlan, ethtype_rules(0x8100, false)), rule);
                    if switched(cfg.vlan, ethtype_rules(0x8100, false)).contains(rule) {
                        switch_tables(cfg.vlan, 0x8100, false, rule);
                    } else {
                        concat_contains(p7, app_protos_rules(cfg.alp@, false), rule);
                        if app_protos_rules(cfg.alp@, false).contains(rule) {
                            app_protos_rules_tables(cfg.alp@, false, rule);
                        } else {
                            concat_contains(p6, ports_rules(cfg.port@, false), rule);
                            if ports_rules(cfg.port@, false).contains(rule) {
                                ports_rules_tables(cfg.port@, false, rule);
                            } else {
                                concat_contains(p5, dst_ports_rules(cfg.dst_port@, false), rule);
                                if dst_ports_rules(cfg.dst_port@, false).contains(rule) {
                                    dst_ports_rules_tables(cfg.dst_port@, false, rule);
                                } else {
                                    concat_contains(p4, src_ports_rules(cfg.src_port@, false), rule);
                                    if src_ports_rules(cfg.src_port@, false).contains(rule) {
                                        src_ports_rules_tables(cfg.src_port@, false, rule);
                                    } else {
                                        concat_contains(p3, ip_protos_rules(cfg.ip_proto@, false), rule);
                                        if ip_protos_rules(cfg.ip_proto@, false).contains(rule) {
                                            ip_protos_rules_tables(cfg.ip_proto@, false, rule);
                                        } else {
                                            concat_contains(p2, ip_hosts_rules(cfg.ip_host@, false), rule);
                                            if ip_hosts_rules(cfg.ip_host@, false).contains(rule) {
                                                ip_hosts_rules_tables(cfg.ip_host@, false, rule);
                                            } else {
                                                concat_contains(p1, ip_dsts_rules(cfg.ip_dst@, false), rule);
                                                if ip_dsts_rules(cfg.ip_dst@, false).contains(rule) {
                                                    ip_dsts_rules_tables(cfg.ip_dst@, false, rule);
                                                } else {
                                                    concat_contains(p0, ip_srcs_rules(cfg.ip_src@, false), rule);
                                                    if ip_srcs_rules(cfg.ip_src@, false).contains(rule) {
                                                        ip_srcs_rules_tables(cfg.ip_src@, false, rule);
                                                    } else {
                                                        let r0 = eth_type_rules(cfg.eth_type, false); let i = choose|i: int| 0 <= i < r0.len() && r0[i] == rule;
                                                    }
                                                }
                                            }
                                        }
                                    }
                                }
                            }
                        }
                    }
                }
            }
        }
    }
}

/// What is asked of the inner frame goes to tables of populated dimensions.
pub proof fn inner_rules_tables(cfg: Snoop, rule: Rule)
    requires
        inner_rules(cfg).contains(rule),
    ensures
        populates(cfg, rule.table),
{
    let p0 = eth_types_rules(cfg.inner_eth_type@, true);
    let p1 = p0 + ip_srcs_rules(cfg.inner_ip_src@, true);
    let p2 = p1 + ip_dsts_rules(cfg.inner_ip_dst@, true);
    let p3 = p2 + ip_hosts_rules(cfg.inner_ip_host@, true);
    let p4 = p3 + ip_protos_rules(cfg.inner_ip_proto@, true);
    let p5 = p4 + src_ports_rules(cfg.inner_src_port@, true);
    let p6 = p5 + dst_ports_rules(cfg.inner_dst_port@, true);
    let p7 = p6 + ports_rules(cfg.inner_port@, true);
    let p8 = p7 + app_protos_rules(cfg.inner_alp@, true);
    let p9 = p8 + switched(cfg.inner_v4, ethtype_rules(0x0800, true));
    let p10 = p9 + switched(cfg.inner_v6, ethtype_rules(0x86dd, true));
    let p11 = p10 + switched(cfg.inner_arp, ethtype_rules(0x0806, true));
    assert(p11 == inner_rules(cfg));
    concat_contains(p10, switched(cfg.inner_arp, ethtype_rules(0x0806, true)), rule);
    if switched(cfg.inner_arp, ethtype_rules(0x0806, true)).contains(rule) {
        switch_tables(cfg.inner_arp, 0x0806, true, rule);
    } else {
        concat_contains(p9, switched(cfg.inner_v6, ethtype_rules(0x86dd, true)), rule);
        if switched(cfg.inner_v6, ethtype_rules(0x86dd, true)).contains(rule) {
            switch_tables(cfg.inner_v6, 0x86dd, true, rule);
        } else {
            concat_contains(p8, switched(cfg.inner_v4, ethtype_rules(0x0800, true)), rule);
            if switched(cfg.inner_v4, ethtype_rules(0x0800, true)).contains(rule) {
                switch_tables(cfg.inner_v4, 0x0800, true, rule);
            } else {
                concat_contains(p7, app_protos_rules(cfg.inner_alp@, true), rule);
                if app_protos_rules(cfg.inner_alp@, true).contains(rule) {
                    app_protos_rules_tables(cfg.inner_alp@, true, rule);
                } else {
                    concat_contains(p6, ports_rules(cfg.inner_port@, true), rule);
                    if ports_rules(cfg.inner_port@, true).contains(rule) {
                        ports_rules_tables(cfg.inner_port@, true, rule);
                    } else {
                        concat_contains(p5, dst_ports_rules(cfg.inner_dst_port@, true), rule);
                        if dst_ports_rules(cfg.inner_dst_port@, true).contains(rule) {
                            dst_ports_rules_tables(cfg.inner_dst_port@, true, rule);
                        } else {
                            concat_contains(p4, src_ports_rules(cfg.inner_src_port@, true), rule);
                            if src_ports_rules(cfg.inner_src_port@, true).contains(rule) {
                                src_ports_rules_tables(cfg.inner_src_port@, true, rule);
                            } else {
                                concat_contains(p3, ip_protos_rules(cfg.inner_ip_proto@, true), rule);
                                if ip_protos_rules(cfg.inner_ip_proto@, true).contains(rule) {
                                    ip_protos_rules_tables(cfg.inner_ip_proto@, true, rule);
                                } else {
                                    concat_contains(p2, ip_hosts_rules(cfg.inner_ip_host@, true), rule);
                                    if ip_hosts_rules(cfg.inner_ip_host@, true).contains(rule) {
                                        ip_hosts_rules_tables(cfg.inner_ip_host@, true, rule);
                                    } else {
                                        concat_contains(p1, ip_dsts_rules(cfg.inner_ip_dst@, true), rule);
                                        if ip_dsts_rules(cfg.inner_ip_dst@, true).contains(rule) {
                                            ip_dsts_rules_tables(cfg.inner_ip_dst@, true, rule);
                                        } else {
                                            concat_contains(p0, ip_srcs_rules(cfg.inner_ip_src@, true), rule);
                                            if ip_srcs_rules(cfg.inner_ip_src@, true).contains(rule) {
                                                ip_srcs_rules_tables(cfg.inner_ip_src@, true, rule);
                                            } else {
                                                eth_types_rules_tables(cfg.inner_eth_type@, true, rule);
                                            }
                                        }
                                    }
                                }
                            }
                        }
                    }
                }
            }
        }
    }
}

/// A table receives an entry only if its dimension is populated: a dimension
/// that is left empty installs nothing, in the outer frame and in the inner
/// one, whatever the other dimensions hold.
pub proof fn unpopulated_dimension_installs_nothing(cfg: Snoop, rule: Rule)
    requires
        compiled(cfg).contains(rule),
    ensures
        populates(cfg, rule.table),
{
    install_all_only_asked(Seq::empty(), filter_rules(cfg), rule);
    concat_contains(outer_rules(cfg), inner_rules(cfg), rule);
    if outer_rules(cfg).contains(rule) {
        outer_rules_tables(cfg, rule);
    } else {
        inner_rules_tables(cfg, rule);
    }
}

} // verus!
