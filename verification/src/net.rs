//! Plain network values: addresses, prefixes, sockets and packet facts.

use vstd::arithmetic::power2::{lemma2_to64, lemma_pow2_pos, lemma_pow2_strictly_increases, lemma_pow2_unfold, pow2};
use vstd::prelude::*;

use crate::sort::{key_names_value, key_le, SortKey};

verus! {

/// An IP address as its number.
#[derive(Clone, Copy, Debug, PartialEq, Eq, PartialOrd, Ord, Hash, Structural)]
pub enum IpAddr {
    V4(u32),
    V6(u128),
}

impl IpAddr {
    /// Whether this is an IPv6 address.
    pub open spec fn spec_is_ipv6(&self) -> bool {
        self is V6
    }

    /// Whether this is an IPv6 address.
    #[verifier::when_used_as_spec(spec_is_ipv6)]
    pub fn is_ipv6(&self) -> (r: bool)
        ensures
            r == self.spec_is_ipv6(),
    {
        match self {
            IpAddr::V4(_) => false,
            IpAddr::V6(_) => true,
        }
    }

    /// The address as a number, IPv4 in the low 32 bits.
    pub open spec fn number(&self) -> int {
        match self {
            IpAddr::V4(bits) => bits as int,
            IpAddr::V6(bits) => bits as int,
        }
    }

    /// Bits of an address of this family.
    pub open spec fn spec_width(&self) -> u8 {
        if self.is_ipv6() {
            128
        } else {
            32
        }
    }

    /// Bits of an address of this family.
    #[verifier::when_used_as_spec(spec_width)]
    pub fn width(&self) -> (r: u8)
        ensures
            r == self.spec_width(),
    {
        if self.is_ipv6() {
            128
        } else {
            32
        }
    }

    /// The all-zero address of this family.
    pub open spec fn spec_is_unspecified(&self) -> bool {
        self.number() == 0
    }

    /// The all-zero address of this family.
    #[verifier::when_used_as_spec(spec_is_unspecified)]
    pub fn is_unspecified(&self) -> (r: bool)
        ensures
            r == self.spec_is_unspecified(),
    {
        match self {
            IpAddr::V4(bits) => *bits == 0,
            IpAddr::V6(bits) => *bits == 0,
        }
    }
}

/// Multicast: 224.0.0.0/4, or the ff00::/8 block.
pub open spec fn is_multicast_number(address: IpAddr) -> bool {
    match address {
        IpAddr::V4(bits) => bits as int / 0x1000_0000 == 0xe,
        IpAddr::V6(bits) => bits as int / 0x1_0000_0000_0000_0000_0000_0000_0000_00 == 0xff,
    }
}

impl IpAddr {
    /// Whether the address names a multicast group.
    pub fn is_multicast(&self) -> (r: bool)
        ensures
            r == is_multicast_number(*self),
    {
        match self {
            IpAddr::V4(bits) => *bits / 0x1000_0000 == 0xe,
            IpAddr::V6(bits) => *bits / 0x1_0000_0000_0000_0000_0000_0000_0000_00 == 0xff,
        }
    }

    /// The order of addresses: IPv4 before IPv6, then by number.
    pub open spec fn order(&self) -> Seq<int> {
        seq![if self.is_ipv6() { 1int } else { 0int }, self.number()]
    }
}

impl SortKey for IpAddr {
    open spec fn key(&self) -> Seq<int> {
        self.order()
    }

    fn at_most(&self, other: &Self) -> (r: bool) {
        proof {
            lemma_pair_order(self.key(), other.key());
        }
        match (self, other) {
            (IpAddr::V4(left), IpAddr::V4(right)) => *left <= *right,
            (IpAddr::V4(_), IpAddr::V6(_)) => true,
            (IpAddr::V6(_), IpAddr::V4(_)) => false,
            (IpAddr::V6(left), IpAddr::V6(right)) => *left <= *right,
        }
    }
}

/// The order of pairs.
proof fn lemma_pair_order(a: Seq<int>, b: Seq<int>)
    requires
        a.len() == 2,
        b.len() == 2,
    ensures
        key_le(a, b) == (a[0] < b[0] || (a[0] == b[0] && a[1] <= b[1])),
{
    reveal_with_fuel(key_le, 4);
}

/// The order of triples.
proof fn lemma_triple_order(a: Seq<int>, b: Seq<int>)
    requires
        a.len() == 3,
        b.len() == 3,
    ensures
        key_le(a, b) == (a[0] < b[0] || (a[0] == b[0] && (a[1] < b[1] || (a[1] == b[1] && a[2]
            <= b[2])))),
{
    reveal_with_fuel(key_le, 5);
}

/// The order of quintuples.
proof fn lemma_quintuple_order(a: Seq<int>, b: Seq<int>)
    requires
        a.len() == 5,
        b.len() == 5,
    ensures
        key_le(a, b) == (a[0] < b[0] || (a[0] == b[0] && (a[1] < b[1] || (a[1] == b[1] && (a[2]
            < b[2] || (a[2] == b[2] && (a[3] < b[3] || (a[3] == b[3] && a[4] <= b[4])))))))),
{
    reveal_with_fuel(key_le, 7);
}

/// Addresses with one order are the same.
pub proof fn lemma_address_order_is_injective(a: IpAddr, b: IpAddr)
    requires
        a.order() == b.order(),
    ensures
        a == b,
{
    assert(a.order()[0] == b.order()[0]);
    assert(a.order()[1] == b.order()[1]);
}

/// An address block.
#[derive(Clone, Copy, Debug, PartialEq, Eq, PartialOrd, Ord, Hash, Structural)]
pub struct IpNet {
    pub addr: IpAddr,
    pub prefix_len: u8,
}

impl IpNet {
    /// The length fits the family.
    pub open spec fn wf(&self) -> bool {
        self.prefix_len <= self.addr.width()
    }

    /// Addresses of the block.
    pub open spec fn size(&self) -> int {
        pow2((self.addr.width() - self.prefix_len) as nat) as int
    }

    /// Whether an address lies in the block.
    pub open spec fn holds(&self, address: IpAddr) -> bool {
        &&& address.is_ipv6() == self.addr.is_ipv6()
        &&& address.number() / self.size() == self.addr.number() / self.size()
    }

    /// The order of blocks: IPv4 before IPv6, then by address and length.
    pub open spec fn order(&self) -> Seq<int> {
        seq![
            if self.addr.is_ipv6() { 1int } else { 0int },
            self.addr.number(),
            self.prefix_len as int,
        ]
    }

    /// The block of a single address.
    pub fn host(addr: IpAddr) -> (r: IpNet)
        ensures
            r == (IpNet { addr, prefix_len: addr.width() }),
            r.wf(),
    {
        IpNet { addr, prefix_len: addr.width() }
    }

    /// Whether an address lies in the block.
    pub fn contains(&self, address: &IpAddr) -> (r: bool)
        requires
            self.wf(),
        ensures
            r == self.holds(*address),
    {
        match (self.addr, *address) {
            (IpAddr::V4(own), IpAddr::V4(other)) => same_block(
                own as u128,
                other as u128,
                32 - self.prefix_len,
            ),
            (IpAddr::V6(own), IpAddr::V6(other)) => same_block(own, other, 128 - self.prefix_len),
            _ => false,
        }
    }
}

/// Whether two numbers lie in one aligned block of that many bits.
fn same_block(a: u128, b: u128, bits: u8) -> (r: bool)
    requires
        bits <= 128,
    ensures
        r == (b as int / pow2(bits as nat) as int == a as int / pow2(bits as nat) as int),
{
    if bits == 128 {
        proof {
            lemma_whole_range(a as int);
            lemma_whole_range(b as int);
        }
        return true;
    }
    let mut size: u128 = 1;
    let mut done: u8 = 0;
    proof {
        lemma2_to64();
    }
    while done < bits
        invariant
            done <= bits < 128,
            size == pow2(done as nat),
        decreases bits - done,
    {
        proof {
            lemma_pow2_unfold((done + 1) as nat);
            lemma_half_range((done + 1) as nat);
        }
        size = size * 2;
        done = done + 1;
    }
    proof {
        lemma_pow2_pos(bits as nat);
    }
    b / size == a / size
}

/// All 128-bit numbers lie in one block of 128 bits.
proof fn lemma_whole_range(a: int)
    requires
        0 <= a <= u128::MAX,
    ensures
        a / (pow2(128) as int) == 0,
{
    lemma_pow2_of_128();
    assert(a / 0x1_0000_0000_0000_0000_0000_0000_0000_0000int == 0) by (nonlinear_arith)
        requires
            0 <= a < 0x1_0000_0000_0000_0000_0000_0000_0000_0000int,
    ;
}

/// The number of 128-bit numbers.
proof fn lemma_pow2_of_128()
    ensures
        pow2(128) == 0x1_0000_0000_0000_0000_0000_0000_0000_0000int,
{
    lemma2_to64();
    vstd::arithmetic::power2::lemma_pow2_adds(64, 64);
    assert(0x1_0000_0000_0000_0000int * 0x1_0000_0000_0000_0000int
        == 0x1_0000_0000_0000_0000_0000_0000_0000_0000int) by (nonlinear_arith);
}

/// Powers below 2^128 are 128-bit numbers.
proof fn lemma_half_range(bits: nat)
    requires
        bits < 128,
    ensures
        pow2(bits) <= u128::MAX,
{
    lemma_pow2_strictly_increases(bits, 128);
    lemma_pow2_of_128();
}

impl SortKey for IpNet {
    open spec fn key(&self) -> Seq<int> {
        self.order()
    }

    fn at_most(&self, other: &Self) -> (r: bool) {
        proof {
            lemma_triple_order(self.key(), other.key());
        }
        match (self.addr, other.addr) {
            (IpAddr::V4(left), IpAddr::V4(right)) => left < right || (left == right
                && self.prefix_len <= other.prefix_len),
            (IpAddr::V4(_), IpAddr::V6(_)) => true,
            (IpAddr::V6(_), IpAddr::V4(_)) => false,
            (IpAddr::V6(left), IpAddr::V6(right)) => left < right || (left == right
                && self.prefix_len <= other.prefix_len),
        }
    }
}

/// Blocks with one order are the same.
pub proof fn lemma_block_order_is_injective(a: IpNet, b: IpNet)
    requires
        a.order() == b.order(),
    ensures
        a == b,
{
    assert(a.order()[0] == b.order()[0]);
    assert(a.order()[1] == b.order()[1]);
    assert(a.order()[2] == b.order()[2]);
}

/// The order of a block names it.
pub proof fn lemma_block_keys()
    ensures
        key_names_value::<IpNet>(),
{
    assert forall|a: IpNet, b: IpNet| #[trigger] a.key() == #[trigger] b.key() implies a
        == b by {
        lemma_block_order_is_injective(a, b);
    }
}

/// The order of an address names it.
pub proof fn lemma_address_keys()
    ensures
        key_names_value::<IpAddr>(),
{
    assert forall|a: IpAddr, b: IpAddr| #[trigger] a.key() == #[trigger] b.key() implies a
        == b by {
        lemma_address_order_is_injective(a, b);
    }
}

/// The order of an endpoint names it.
pub proof fn lemma_endpoint_keys()
    ensures
        key_names_value::<SocketAddr>(),
{
    assert forall|a: SocketAddr, b: SocketAddr| #[trigger] a.key() == #[trigger] b.key() implies a
        == b by {
        lemma_endpoint_order_is_injective(a, b);
    }
}

/// Endpoints with one order are the same.
pub proof fn lemma_endpoint_order_is_injective(a: SocketAddr, b: SocketAddr)
    requires
        a.order() == b.order(),
    ensures
        a == b,
{
    assert(a.order()[0] == b.order()[0]);
    assert(a.order()[1] == b.order()[1]);
    assert(a.order()[2] == b.order()[2]);
    assert(a.order()[3] == b.order()[3]);
    assert(a.order()[4] == b.order()[4]);
}

/// A transport endpoint.
#[derive(Clone, Copy, Debug, PartialEq, Eq, Structural)]
pub struct SocketAddr {
    pub ip: IpAddr,
    pub port: u16,
    /// The flow information of an IPv6 endpoint; zero on IPv4.
    pub flowinfo: u32,
    /// The scope of an IPv6 endpoint; zero on IPv4.
    pub scope_id: u32,
}

impl SocketAddr {
    /// An endpoint without flow information or scope.
    pub open spec fn spec_new(ip: IpAddr, port: u16) -> SocketAddr {
        SocketAddr { ip, port, flowinfo: 0, scope_id: 0 }
    }

    /// An endpoint without flow information or scope.
    #[verifier::when_used_as_spec(spec_new)]
    pub fn new(ip: IpAddr, port: u16) -> (r: SocketAddr)
        ensures
            r == SocketAddr::spec_new(ip, port),
    {
        SocketAddr { ip, port, flowinfo: 0, scope_id: 0 }
    }

    /// The order of endpoints: by address, then by port, flow information and
    /// scope.
    pub open spec fn order(&self) -> Seq<int> {
        seq![
            if self.ip.is_ipv6() { 1int } else { 0int },
            self.ip.number(),
            self.port as int,
            self.flowinfo as int,
            self.scope_id as int,
        ]
    }
}

impl SortKey for SocketAddr {
    open spec fn key(&self) -> Seq<int> {
        self.order()
    }

    fn at_most(&self, other: &Self) -> (r: bool) {
        proof {
            lemma_quintuple_order(self.key(), other.key());
        }
        let rest: bool = self.port < other.port || (self.port == other.port && (self.flowinfo
            < other.flowinfo || (self.flowinfo == other.flowinfo && self.scope_id
            <= other.scope_id)));
        match (self.ip, other.ip) {
            (IpAddr::V4(left), IpAddr::V4(right)) => left < right || (left == right && rest),
            (IpAddr::V4(_), IpAddr::V6(_)) => true,
            (IpAddr::V6(_), IpAddr::V4(_)) => false,
            (IpAddr::V6(left), IpAddr::V6(right)) => left < right || (left == right && rest),
        }
    }
}

/// What a packet's headers say.
#[derive(Clone, Copy, Debug, PartialEq, Eq, Structural)]
pub struct PacketInfo {
    pub source: IpAddr,
    pub destination: IpAddr,
    pub protocol: u8,
    pub source_port: Option<u16>,
    pub destination_port: Option<u16>,
    pub length: usize,
    pub latency_protected: bool,
}

/// The five values that name a flow.
#[derive(Clone, Copy, Debug, PartialEq, Eq, Hash, Structural)]
pub struct FlowKey {
    pub source: IpAddr,
    pub destination: IpAddr,
    pub protocol: u8,
    pub source_port: Option<u16>,
    pub destination_port: Option<u16>,
}

/// The flow that a packet belongs to.
pub open spec fn flow_of(info: PacketInfo) -> FlowKey {
    FlowKey {
        source: info.source,
        destination: info.destination,
        protocol: info.protocol,
        source_port: info.source_port,
        destination_port: info.destination_port,
    }
}

/// The flow that a packet belongs to.
pub fn flow_key(info: PacketInfo) -> (r: FlowKey)
    ensures
        r == flow_of(info),
{
    FlowKey {
        source: info.source,
        destination: info.destination,
        protocol: info.protocol,
        source_port: info.source_port,
        destination_port: info.destination_port,
    }
}

/// The multicast addresses are 224.0.0.0 to 239.255.255.255, and those that
/// begin with the byte `ff`.
pub proof fn lemma_multicast_ranges(v4: u32, v6: u128)
    ensures
        is_multicast_number(IpAddr::V4(v4)) <==> 0xe000_0000 <= v4 <= 0xefff_ffff,
        is_multicast_number(IpAddr::V6(v6)) <==> v6 >= 0xff00_0000_0000_0000_0000_0000_0000_0000,
{
}

/// A prefix holds the address that it is written with, a prefix as long as its
/// family's addresses holds nothing else, and a prefix of length zero holds the
/// whole of its family. No prefix holds an address of the other family.
pub proof fn lemma_prefix_extent(net: IpNet, address: IpAddr)
    requires
        net.wf(),
    ensures
        net.holds(net.addr),
        net.addr is V4 && net.prefix_len == 32 ==> (net.holds(address) <==> address == net.addr),
        net.addr is V6 && net.prefix_len == 128 ==> (net.holds(address) <==> address == net.addr),
        net.prefix_len == 0 ==> (net.holds(address) <==> (address is V4) == (net.addr is V4)),
        (address is V4) != (net.addr is V4) ==> !net.holds(address),
{
    vstd::arithmetic::power2::lemma2_to64();
    if net.prefix_len == net.addr.width() {
        assert(net.size() == 1);
        assert(net.addr.number() / net.size() == net.addr.number());
        assert(address.number() / net.size() == address.number());
    }
    if net.prefix_len == 0 {
        if net.addr is V4 {
            assert(net.size() == 0x1_0000_0000);
            assert(net.addr.number() / net.size() == 0);
            if address is V4 {
                assert(address.number() / net.size() == 0);
            }
        } else {
            vstd::arithmetic::power2::lemma_pow2_adds(64, 64);
            assert(pow2(128) == 0x1_0000_0000_0000_0000 * 0x1_0000_0000_0000_0000);
            let size = net.size();
            assert(size == 0x1_0000_0000_0000_0000_0000_0000_0000_0000int);
            vstd::arithmetic::div_mod::lemma_basic_div(net.addr.number(), size);
            if address is V6 {
                vstd::arithmetic::div_mod::lemma_basic_div(address.number(), size);
            }
        }
    }
}

/// Two addresses of one family that agree in their leading bits stand in the
/// same prefixes of that length: a prefix of `prefix_len` bits holds the
/// addresses from its first one on, as many as the free bits can number.
pub proof fn lemma_prefix_is_a_range(net: IpNet, address: IpAddr, first: int)
    requires
        net.wf(),
        (address is V4) == (net.addr is V4),
        first == net.addr.number() - net.addr.number() % pow2(
            (net.addr.width() - net.prefix_len) as nat,
        ) as int,
    ensures
        net.holds(address) <==> first <= address.number() < first + pow2(
            (net.addr.width() - net.prefix_len) as nat,
        ),
{
    let size = pow2((net.addr.width() - net.prefix_len) as nat) as int;
    vstd::arithmetic::power2::lemma_pow2_pos((net.addr.width() - net.prefix_len) as nat);
    let a = address.number();
    let n = net.addr.number();
    vstd::arithmetic::div_mod::lemma_fundamental_div_mod(a, size);
    vstd::arithmetic::div_mod::lemma_fundamental_div_mod(n, size);
    assert((a / size == n / size) <==> (n - n % size <= a < n - n % size + size)) by (nonlinear_arith)
        requires
            size > 0,
            a == size * (a / size) + a % size,
            n == size * (n / size) + n % size,
            0 <= a % size < size,
            0 <= n % size < size,
    ;
}

/// Two packets are of one flow exactly when both addresses, the protocol and
/// both ports agree.
pub proof fn lemma_flow_is_the_five_tuple(a: PacketInfo, b: PacketInfo)
    ensures
        flow_of(a) == flow_of(b) <==> a.source == b.source && a.destination == b.destination
            && a.protocol == b.protocol && a.source_port == b.source_port && a.destination_port
            == b.destination_port,
        flow_of(a).source == a.source && flow_of(a).destination == a.destination,
        flow_of(a).source_port == a.source_port && flow_of(a).destination_port
            == a.destination_port,
{
}

} // verus!
