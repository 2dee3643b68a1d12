//! Virtual switches. Addresses are IPv4 values in host order
//! (`a.b.c.d` is `a << 24 | b << 16 | c << 8 | d`).
use vstd::prelude::*;
use crate::util::ids::{is_v4, new_uuid};

verus! {

/// Operating mode of a virtual switch.
#[derive(Debug, Clone, Copy, PartialEq, Eq, Structural)]
pub enum VirtualSwitchMode {
    /// Guests share the host's external address through NAT.
    Nat,
    /// Guests appear as independent hosts on the physical network.
    Bridged,
    /// Guests reach each other and the host only.
    HostOnly,
    /// Guests reach other guests on the same switch only.
    Internal,
}

/// The display name of a mode.
pub open spec fn mode_name(m: VirtualSwitchMode) -> Seq<char> {
    match m {
        VirtualSwitchMode::Nat => "NAT"@,
        VirtualSwitchMode::Bridged => "Bridged"@,
        VirtualSwitchMode::HostOnly => "Host-only"@,
        VirtualSwitchMode::Internal => "Internal"@,
    }
}

impl VirtualSwitchMode {
    /// The display name: NAT, Bridged, Host-only or Internal.
    pub fn to_string(&self) -> (r: String)
        ensures
            r@ == mode_name(*self),
    {
        match self {
            VirtualSwitchMode::Nat => String::from_str("NAT"),
            VirtualSwitchMode::Bridged => String::from_str("Bridged"),
            VirtualSwitchMode::HostOnly => String::from_str("Host-only"),
            VirtualSwitchMode::Internal => String::from_str("Internal"),
        }
    }
}

/// Bandwidth limit configuration.
#[derive(Debug, Clone, Copy, PartialEq, Eq, Structural)]
pub struct BandwidthLimit {
    /// Maximum receive rate in Mbit/s (0 = unlimited).
    pub rx_mbps: u32,
    /// Maximum transmit rate in Mbit/s (0 = unlimited).
    pub tx_mbps: u32,
}

/// An IPv4 subnet: network address and prefix length (at most 32).
#[derive(Debug, Clone, Copy, PartialEq, Eq, Structural)]
pub struct Ipv4Subnet {
    pub addr: u32,
    pub prefix_len: u8,
}

/// An IPv4 or IPv6 address.
#[derive(Debug, Clone, Copy, PartialEq, Eq, Structural)]
pub enum IpAddress {
    V4(u32),
    V6(u128),
}

/// The address `a.b.c.d`.
pub open spec fn ipv4(a: u8, b: u8, c: u8, d: u8) -> u32 {
    (a * 0x100_0000 + b * 0x1_0000 + c * 0x100 + d) as u32
}

/// A virtual network switch.
#[derive(Debug)]
pub struct VirtualSwitch {
    pub id: u128,
    /// Human-readable name (unique in a manager).
    pub name: String,
    pub mode: VirtualSwitchMode,
    /// Subnet for guest addressing.
    pub subnet: Ipv4Subnet,
    /// Gateway address.
    pub gateway: u32,
    /// Whether the built-in DHCP server is active.
    pub dhcp_enabled: bool,
    pub dhcp_range_start: u32,
    pub dhcp_range_end: u32,
    /// DNS servers forwarded to guests.
    pub dns_servers: Vec<IpAddress>,
    pub bandwidth_limit: Option<BandwidthLimit>,
    /// VMs connected to this switch.
    pub connected_vms: u32,
    pub ipv6_enabled: bool,
    /// Physical adapter bound in Bridged mode.
    pub adapter_name: Option<String>,
}

/// The default addressing of a mode: (subnet, gateway, DHCP start, DHCP end).
pub open spec fn default_addressing(m: VirtualSwitchMode) -> (Ipv4Subnet, u32, u32, u32) {
    match m {
        VirtualSwitchMode::Nat => (Ipv4Subnet { addr: ipv4(192, 168, 128, 0), prefix_len: 24 },
            ipv4(192, 168, 128, 1), ipv4(192, 168, 128, 128), ipv4(192, 168, 128, 254)),
        VirtualSwitchMode::HostOnly => (Ipv4Subnet { addr: ipv4(192, 168, 192, 0), prefix_len: 24 },
            ipv4(192, 168, 192, 1), ipv4(192, 168, 192, 128), ipv4(192, 168, 192, 254)),
        VirtualSwitchMode::Bridged => (Ipv4Subnet { addr: ipv4(192, 168, 1, 0), prefix_len: 24 },
            ipv4(192, 168, 1, 1), ipv4(192, 168, 1, 100), ipv4(192, 168, 1, 200)),
        VirtualSwitchMode::Internal => (Ipv4Subnet { addr: ipv4(10, 0, 0, 0), prefix_len: 24 },
            ipv4(10, 0, 0, 1), ipv4(10, 0, 0, 10), ipv4(10, 0, 0, 254)),
    }
}

/// Whether a mode runs DHCP by default (NAT and host-only do).
pub open spec fn default_dhcp(m: VirtualSwitchMode) -> bool {
    m == VirtualSwitchMode::Nat || m == VirtualSwitchMode::HostOnly
}

impl VirtualSwitch {
    /// The switch holds the given settings, a fresh version-4 id, DNS
    /// 8.8.8.8 and 1.1.1.1, no bandwidth limit, no VM and no IPv6.
    pub open spec fn is_fresh(&self, name: Seq<char>, mode: VirtualSwitchMode, subnet: Ipv4Subnet, gateway: u32,
        dhcp_enabled: bool, start: u32, end: u32, adapter: Option<Seq<char>>) -> bool {
        &&& is_v4(self.id)
        &&& self.name@ == name
        &&& self.mode == mode
        &&& self.subnet == subnet
        &&& self.gateway == gateway
        &&& self.dhcp_enabled == dhcp_enabled
        &&& self.dhcp_range_start == start
        &&& self.dhcp_range_end == end
        &&& self.dns_servers@ == seq![IpAddress::V4(ipv4(8, 8, 8, 8)), IpAddress::V4(ipv4(1, 1, 1, 1))]
        &&& self.bandwidth_limit is None
        &&& self.connected_vms == 0
        &&& !self.ipv6_enabled
        &&& match self.adapter_name { Some(a) => adapter == Some(a@), None => adapter is None }
    }

    /// A switch with the default addressing of `mode`; DHCP is on for NAT
    /// and host-only.
    pub fn new(name: String, mode: VirtualSwitchMode) -> (s: Self)
        ensures
            ({
                let (subnet, gw, start, end) = default_addressing(mode);
                s.is_fresh(name@, mode, subnet, gw, default_dhcp(mode), start, end, None)
            }),
    {
        let (subnet, gw, start, end) = match mode {
            VirtualSwitchMode::Nat => (Ipv4Subnet { addr: 0xC0A8_8000, prefix_len: 24 }, 0xC0A8_8001u32, 0xC0A8_8080u32, 0xC0A8_80FEu32),
            VirtualSwitchMode::HostOnly => (Ipv4Subnet { addr: 0xC0A8_C000, prefix_len: 24 }, 0xC0A8_C001u32, 0xC0A8_C080u32, 0xC0A8_C0FEu32),
            VirtualSwitchMode::Bridged => (Ipv4Subnet { addr: 0xC0A8_0100, prefix_len: 24 }, 0xC0A8_0101u32, 0xC0A8_0164u32, 0xC0A8_01C8u32),
            VirtualSwitchMode::Internal => (Ipv4Subnet { addr: 0x0A00_0000, prefix_len: 24 }, 0x0A00_0001u32, 0x0A00_000Au32, 0x0A00_00FEu32),
        };
        let dhcp = match mode {
            VirtualSwitchMode::Nat | VirtualSwitchMode::HostOnly => true,
            _ => false,
        };
        Self::new_detailed(name, mode, subnet, gw, dhcp, start, end, None)
    }

    /// A switch with explicit network settings.
    pub fn new_detailed(
        name: String,
        mode: VirtualSwitchMode,
        subnet: Ipv4Subnet,
        gateway: u32,
        dhcp_enabled: bool,
        dhcp_range_start: u32,
        dhcp_range_end: u32,
        adapter_name: Option<String>,
    ) -> (s: Self)
        ensures
            s.is_fresh(name@, mode, subnet, gateway, dhcp_enabled, dhcp_range_start, dhcp_range_end,
                match adapter_name { Some(a) => Some(a@), None => None }),
    {
        let mut dns: Vec<IpAddress> = Vec::new();
        dns.push(IpAddress::V4(0x0808_0808));
        dns.push(IpAddress::V4(0x0101_0101));
        assert(dns@ =~= seq![IpAddress::V4(ipv4(8, 8, 8, 8)), IpAddress::V4(ipv4(1, 1, 1, 1))]);
        VirtualSwitch {
            id: new_uuid(),
            name,
            mode,
            subnet,
            gateway,
            dhcp_enabled,
            dhcp_range_start,
            dhcp_range_end,
            dns_servers: dns,
            bandwidth_limit: None,
            connected_vms: 0,
            ipv6_enabled: false,
            adapter_name,
        }
    }

    /// `self` and `other` hold the same settings (the DNS list compared by
    /// contents).
    pub open spec fn same_as(&self, other: &Self) -> bool {
        &&& self.id == other.id
        &&& self.name@ == other.name@
        &&& self.mode == other.mode
        &&& self.subnet == other.subnet
        &&& self.gateway == other.gateway
        &&& self.dhcp_enabled == other.dhcp_enabled
        &&& self.dhcp_range_start == other.dhcp_range_start
        &&& self.dhcp_range_end == other.dhcp_range_end
        &&& self.dns_servers@ == other.dns_servers@
        &&& self.bandwidth_limit == other.bandwidth_limit
        &&& self.connected_vms == other.connected_vms
        &&& self.ipv6_enabled == other.ipv6_enabled
        &&& self.adapter_name == other.adapter_name
    }

    /// A field-for-field copy.
    pub fn duplicate(&self) -> (r: Self)
        ensures
            r.same_as(self),
    {
        let mut dns: Vec<IpAddress> = Vec::new();
        let mut i: usize = 0;
        while i < self.dns_servers.len()
            invariant
                i <= self.dns_servers@.len(),
                dns@ == self.dns_servers@.subrange(0, i as int),
            decreases self.dns_servers@.len() - i,
        {
            dns.push(self.dns_servers[i]);
            i = i + 1;
            assert(dns@ =~= self.dns_servers@.subrange(0, i as int));
        }
        assert(dns@ =~= self.dns_servers@);
        VirtualSwitch {
            id: self.id,
            name: self.name.clone(),
            mode: self.mode,
            subnet: self.subnet,
            gateway: self.gateway,
            dhcp_enabled: self.dhcp_enabled,
            dhcp_range_start: self.dhcp_range_start,
            dhcp_range_end: self.dhcp_range_end,
            dns_servers: dns,
            bandwidth_limit: self.bandwidth_limit,
            connected_vms: self.connected_vms,
            ipv6_enabled: self.ipv6_enabled,
            adapter_name: match &self.adapter_name {
                Some(a) => Some(a.clone()),
                None => None,
            },
        }
    }
}

/// Whether guests on a switch of mode `m` reach the host (the network-mode
/// table: NAT, bridged and host-only do; internal does not).
pub open spec fn reaches_host(m: VirtualSwitchMode) -> bool {
    m != VirtualSwitchMode::Internal
}

/// Whether guests on a switch of mode `m` sit on the physical network, where
/// its own DHCP server hands out addresses (bridged only).
pub open spec fn on_physical_network(m: VirtualSwitchMode) -> bool {
    m == VirtualSwitchMode::Bridged
}

/// A switch made with default settings serves DHCP exactly on the networks
/// NovaVM owns that the host takes part in: those that reach the host but
/// are not the physical network (NAT and host-only). `s` is what
/// `VirtualSwitch::new(name, mode)` returned.
pub proof fn law_default_switch_dhcp(s: VirtualSwitch, name: Seq<char>, mode: VirtualSwitchMode)
    requires
        ({
            let (subnet, gw, start, end) = default_addressing(mode);
            s.is_fresh(name, mode, subnet, gw, default_dhcp(mode), start, end, None)
        }),
    ensures
        s.dhcp_enabled == (reaches_host(s.mode) && !on_physical_network(s.mode)),
{
}

/// The default addressing of every mode is a /24 whose gateway is its first
/// host address and whose DHCP range lies inside the subnet, after the
/// gateway and before the broadcast address.
pub proof fn law_default_addressing_in_subnet(m: VirtualSwitchMode)
    ensures
        ({
            let (subnet, gw, start, end) = default_addressing(m);
            &&& subnet.prefix_len == 24
            &&& subnet.addr % 256 == 0
            &&& gw == subnet.addr + 1
            &&& gw < start <= end < subnet.addr + 255
        }),
{
}

} // verus!
