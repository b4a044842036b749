//! Container networking: the host bridge, veth naming, namespace paths, and
//! IP allocation out of the fixed `172.28.0.0/16` range.

use vstd::prelude::*;

use crate::db::used_ip_addresses_key;
use crate::errors::Error;
use crate::rng::random_byte_pair;
use crate::store::Store;
use crate::strutil::dec_str;
use crate::strutil::u64_to_string;

verus! {

/// Name of the host bridge device.
pub fn bridge_name() -> (r: String)
    ensures
        r@ == "rocker0"@,
{
    String::from_str("rocker0")
}

/// Address of the host side of the bridge.
pub fn bridge_address() -> (r: String)
    ensures
        r@ == "172.28.0.1"@,
{
    String::from_str("172.28.0.1")
}

/// The network that container addresses are sampled from.
pub fn network_address() -> (r: String)
    ensures
        r@ == "172.28.0.0/16"@,
{
    String::from_str("172.28.0.0/16")
}

/// The six leading characters of a container id, used in device names.
pub open spec fn short_id(id: Seq<char>) -> Seq<char> {
    id.subrange(0, 6)
}

/// Name of the bridge-side end of the container's veth pair.
pub fn bridge_side_veth_name(container_id: &str) -> (r: String)
    requires
        container_id@.len() >= 6,
    ensures
        r@ == "br-veth-"@ + short_id(container_id@),
{
    String::from_str("br-veth-").concat(container_id.substring_char(0, 6))
}

/// Name of the container-side end of the veth pair, the one moved into the
/// container's network namespace.
pub fn container_side_veth_name(container_id: &str) -> (r: String)
    requires
        container_id@.len() >= 6,
    ensures
        r@ == "ns-veth-"@ + short_id(container_id@),
{
    String::from_str("ns-veth-").concat(container_id.substring_char(0, 6))
}

/// Name of the container's network namespace.
pub fn netns_name(container_id: &str) -> (r: String)
    ensures
        r@ == "ns-"@ + container_id@,
{
    String::from_str("ns-").concat(container_id)
}

/// Path of the container's persistent namespace file.
pub fn netns_path(container_id: &str) -> (r: String)
    ensures
        r@ == "/run/netns/ns-"@ + container_id@,
{
    String::from_str("/run/netns/ns-").concat(container_id)
}

/// The dotted form of a sampled container address: `172.28.<a>.<b>`.
pub open spec fn ip_string(a: u8, b: u8) -> Seq<char> {
    "172.28."@ + dec_str(a as nat) + "."@ + dec_str(b as nat)
}

/// Render the sampled address bytes as a dotted IPv4 address.
pub fn format_ip(a: u8, b: u8) -> (r: String)
    ensures
        r@ == ip_string(a, b),
{
    String::from_str("172.28.").concat(u64_to_string(a as u64).as_str()).concat(".").concat(
        u64_to_string(b as u64).as_str(),
    )
}

/// Decision behind the bridge liveness probe: a link dump row is
/// `(interface name, flags)`, and the bridge is up when some row names
/// `rocker0` with the UP bit (bit 0) set.
pub fn bridge_is_up(links: &Vec<(String, u32)>) -> (r: bool)
    ensures
        r == exists|i: int|
            0 <= i < links@.len() && (#[trigger] links@[i]).0@ == "rocker0"@ && links@[i].1 & 1u32
                == 1u32,
{
    let target = bridge_name();
    let n = links.len();
    let mut i: usize = 0;
    while i < n
        invariant
            i <= n,
            n == links@.len(),
            target@ == "rocker0"@,
            forall|j: int|
                0 <= j < i ==> !((#[trigger] links@[j]).0@ == "rocker0"@ && links@[j].1 & 1u32
                    == 1u32),
        decreases n - i,
    {
        let row = &links[i];
        if row.0 == target && row.1 & 1u32 == 1u32 {
            return true;
        }
        i = i + 1;
    }
    false
}

/// One step of bridge setup, as the kernel would observe it.
pub enum BridgeAction {
    /// Create the bridge device.
    AddBridge,
    /// Add the host address `172.28.0.1/16` to the bridge.
    AddAddress,
    /// Bring the bridge link up.
    SetUp,
}

/// The kernel-visible state of the bridge device.
pub struct BridgeState {
    pub exists: bool,
    pub up: bool,
    pub addr_count: nat,
}

/// The netlink operations that bridge setup performs: when the link already
/// exists it is only brought up; otherwise it is created, addressed once,
/// and brought up.
pub open spec fn bridge_plan(exists: bool) -> Seq<BridgeAction> {
    if exists {
        seq![BridgeAction::SetUp]
    } else {
        seq![BridgeAction::AddBridge, BridgeAction::AddAddress, BridgeAction::SetUp]
    }
}

pub open spec fn apply_bridge_action(s: BridgeState, a: BridgeAction) -> BridgeState {
    match a {
        BridgeAction::AddBridge => BridgeState { exists: true, ..s },
        BridgeAction::AddAddress => BridgeState { addr_count: s.addr_count + 1, ..s },
        BridgeAction::SetUp => BridgeState { up: true, ..s },
    }
}

pub open spec fn apply_bridge_actions(s: BridgeState, acts: Seq<BridgeAction>) -> BridgeState
    decreases acts.len(),
{
    if acts.len() == 0 {
        s
    } else {
        apply_bridge_actions(apply_bridge_action(s, acts[0]), acts.subrange(1, acts.len() as int))
    }
}

/// The state after one run of bridge setup from state `s`.
pub open spec fn bridge_after_setup(s: BridgeState) -> BridgeState {
    apply_bridge_actions(s, bridge_plan(s.exists))
}

/// Setting up the bridge twice leaves the system as a single call does: the
/// second run finds the link, only brings it up again, and adds no second
/// address.
pub proof fn lemma_setup_bridge_idempotent(s: BridgeState)
    ensures
        bridge_after_setup(bridge_after_setup(s)) == bridge_after_setup(s),
{
    reveal_with_fuel(apply_bridge_actions, 5);
    let s1 = bridge_after_setup(s);
    if s.exists {
        let p = bridge_plan(true);
        assert(p.len() == 1 && p[0] == BridgeAction::SetUp);
        assert(p.subrange(1, 1).len() == 0);
        assert(s1 == BridgeState { up: true, ..s });
    } else {
        let p = bridge_plan(false);
        assert(p.len() == 3 && p[0] == BridgeAction::AddBridge);
        let q1 = p.subrange(1, 3);
        assert(q1.len() == 2 && q1[0] == BridgeAction::AddAddress);
        let q2 = q1.subrange(1, 2);
        assert(q2.len() == 1 && q2[0] == BridgeAction::SetUp);
        assert(q2.subrange(1, 1).len() == 0);
        assert(s1 == BridgeState { exists: true, up: true, addr_count: s.addr_count + 1 });
    }
    let p1 = bridge_plan(true);
    assert(p1.len() == 1 && p1[0] == BridgeAction::SetUp);
    assert(p1.subrange(1, 1).len() == 0);
    assert(bridge_after_setup(s1) == BridgeState { up: true, ..s1 });
}

/// The netlink actions that one run of bridge setup performs, given whether
/// a link named `rocker0` already exists.
pub fn setup_bridge_actions(bridge_exists: bool) -> (r: Vec<BridgeAction>)
    ensures
        r@ == bridge_plan(bridge_exists),
{
    let mut acts: Vec<BridgeAction> = Vec::new();
    if bridge_exists {
        acts.push(BridgeAction::SetUp);
        proof {
            assert(acts@ =~= bridge_plan(true));
        }
    } else {
        acts.push(BridgeAction::AddBridge);
        acts.push(BridgeAction::AddAddress);
        acts.push(BridgeAction::SetUp);
        proof {
            assert(acts@ =~= bridge_plan(false));
        }
    }
    acts
}

/// Reserve a fresh container address: sample `172.28.<a>.<b>` from two
/// random bytes, rerolling while the candidate is already reserved, and
/// record the reservation in one atomic step. The retry count is bounded;
/// running out surfaces as an error and leaves the store unchanged.
pub fn allocate_ip_address(store: &mut Store) -> (r: Result<String, Error>)
    ensures
        match r {
            Ok(ip) => {
                &&& !old(store)@.contains_key("used_ip_addresses/"@ + ip@)
                &&& final(store)@ == old(store)@.insert("used_ip_addresses/"@ + ip@, "1"@)
                &&& exists|a: u8, b: u8| ip@ == ip_string(a, b)
            },
            Err(e) => {
                &&& (e == Error::StoreUnavailable || e == Error::AllocationExhausted)
                &&& e == Error::AllocationExhausted ==> final(store)@ == old(store)@
            },
        },
{
    let mut attempts: usize = 0;
    while attempts < 4096
        invariant
            store@ == old(store)@,
        decreases 4096 - attempts,
    {
        let (a, b) = random_byte_pair();
        let ip = format_ip(a, b);
        let key = used_ip_addresses_key(ip.as_str());
        match store.put_if_absent(key.as_str(), "1") {
            Ok(true) => {
                return Ok(ip);
            },
            Ok(false) => {},
            Err(e) => {
                return Err(e);
            },
        }
        attempts = attempts + 1;
    }
    Err(Error::AllocationExhausted)
}

/// Persist which IP the container-side veth carries, so teardown can free
/// it again.
pub fn record_veth_ip(store: &mut Store, container_id: &str, ip: &str) -> (r: Result<(), Error>)
    requires
        container_id@.len() >= 6,
    ensures
        match r {
            Ok(u) => final(store)@ == old(store)@.insert(
                "veth_ip_addresses/"@ + ("ns-veth-"@ + short_id(container_id@)),
                ip@,
            ),
            Err(e) => e == Error::StoreUnavailable,
        },
{
    let veth = container_side_veth_name(container_id);
    let key = crate::db::veth_ip_addresses_key(veth.as_str());
    store.put(key.as_str(), ip)
}

/// Addresses handed out one after the other are pairwise distinct: an
/// allocation reserves its key, and the next allocation must avoid every
/// reserved key.
pub proof fn lemma_allocated_ips_distinct(
    m0: Map<Seq<char>, Seq<char>>,
    ip1: Seq<char>,
    m1: Map<Seq<char>, Seq<char>>,
    ip2: Seq<char>,
)
    requires
        !m0.contains_key("used_ip_addresses/"@ + ip1),
        m1 == m0.insert("used_ip_addresses/"@ + ip1, "1"@),
        !m1.contains_key("used_ip_addresses/"@ + ip2),
    ensures
        ip1 != ip2,
{
    if ip1 == ip2 {
        assert(m1.contains_key("used_ip_addresses/"@ + ip1));
        assert(false);
    }
}

/// A fresh allocation differs from every address the store holds a
/// reservation for. Since each live container's address is reserved, the
/// addresses of the live containers stay pairwise distinct.
pub proof fn lemma_fresh_ip_avoids_reserved(
    m: Map<Seq<char>, Seq<char>>,
    reserved: Seq<Seq<char>>,
    fresh: Seq<char>,
)
    requires
        forall|i: int|
            0 <= i < reserved.len() ==> m.contains_key(
                "used_ip_addresses/"@ + #[trigger] reserved[i],
            ),
        !m.contains_key("used_ip_addresses/"@ + fresh),
    ensures
        forall|i: int| 0 <= i < reserved.len() ==> #[trigger] reserved[i] != fresh,
{
}

/// One netlink operation performed inside the container's namespace.
pub enum NetAction {
    /// Add `address/prefix_len` to the interface.
    AddAddress { interface: String, address: String, prefix_len: u8 },
    /// Bring the interface up.
    SetLinkUp { interface: String },
    /// Route everything through the gateway.
    AddDefaultRoute { gateway: String },
}

/// The operations run inside namespace `ns-<id>` once the veth pair is
/// wired: address the container-side veth, bring it up, route through the
/// bridge, and give loopback its address.
pub fn netns_setup_actions(container_id: &str, ip: &str) -> (r: Vec<NetAction>)
    requires
        container_id@.len() >= 6,
    ensures
        r@.len() == 4,
        r@[0] matches NetAction::AddAddress { interface, address, prefix_len } && interface@
            == "ns-veth-"@ + short_id(container_id@) && address@ == ip@ && prefix_len == 16u8,
        r@[1] matches NetAction::SetLinkUp { interface } && interface@ == "ns-veth-"@ + short_id(
            container_id@,
        ),
        r@[2] matches NetAction::AddDefaultRoute { gateway } && gateway@ == "172.28.0.1"@,
        r@[3] matches NetAction::AddAddress { interface, address, prefix_len } && interface@
            == "lo"@ && address@ == "127.0.0.1"@ && prefix_len == 32u8,
{
    let veth = container_side_veth_name(container_id);
    let mut acts: Vec<NetAction> = Vec::new();
    acts.push(
        NetAction::AddAddress {
            interface: veth.clone(),
            address: ip.to_owned(),
            prefix_len: 16,
        },
    );
    acts.push(NetAction::SetLinkUp { interface: veth });
    acts.push(NetAction::AddDefaultRoute { gateway: bridge_address() });
    acts.push(
        NetAction::AddAddress {
            interface: String::from_str("lo"),
            address: String::from_str("127.0.0.1"),
            prefix_len: 32,
        },
    );
    acts
}

} // verus!
