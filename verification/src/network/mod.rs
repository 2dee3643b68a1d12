//! The network subsystem: virtual switches held by unique name, and the
//! list of physical adapters shown to the user.
pub mod switch;

use vstd::prelude::*;
use switch::{Ipv4Subnet, VirtualSwitch, VirtualSwitchMode};
use crate::engine::error::{joined3, prefixed};
use crate::util::text::{push_str, str_eq};

verus! {

/// Network subsystem errors.
#[derive(Debug)]
pub enum NetworkError {
    SwitchNotFound(String),
    SwitchAlreadyExists(String),
    DhcpPoolExhausted(String),
    InvalidIpConfig(String),
    Io(String),
    Internal(String),
}

/// The text a network error is shown as.
pub open spec fn network_error_text(e: NetworkError) -> Seq<char> {
    match e {
        NetworkError::SwitchNotFound(n) => "Virtual switch '"@ + n@ + "' not found"@,
        NetworkError::SwitchAlreadyExists(n) => "Switch name '"@ + n@ + "' already exists"@,
        NetworkError::DhcpPoolExhausted(n) => "DHCP pool exhausted for switch '"@ + n@ + "'"@,
        NetworkError::InvalidIpConfig(m) => "Invalid IP configuration: "@ + m@,
        NetworkError::Io(m) => "I/O error: "@ + m@,
        NetworkError::Internal(m) => "Internal network error: "@ + m@,
    }
}

impl NetworkError {
    /// The text the error is shown as.
    pub fn to_string(&self) -> (r: String)
        ensures
            r@ == network_error_text(*self),
    {
        match self {
            NetworkError::SwitchNotFound(n) => joined3("Virtual switch '", n.as_str(), "' not found"),
            NetworkError::SwitchAlreadyExists(n) => joined3("Switch name '", n.as_str(), "' already exists"),
            NetworkError::DhcpPoolExhausted(n) => joined3("DHCP pool exhausted for switch '", n.as_str(), "'"),
            NetworkError::InvalidIpConfig(m) => prefixed("Invalid IP configuration: ", m.as_str()),
            NetworkError::Io(m) => prefixed("I/O error: ", m.as_str()),
            NetworkError::Internal(m) => prefixed("Internal network error: ", m.as_str()),
        }
    }
}

/// The virtual switches, at most one per name.
#[derive(Debug)]
pub struct NetworkManager {
    switches: Vec<VirtualSwitch>,
}

impl NetworkManager {
    pub closed spec fn entries(&self) -> Seq<VirtualSwitch> {
        self.switches@
    }

    pub open spec fn wf(&self) -> bool {
        forall|i: int, j: int| 0 <= i < self.entries().len() && 0 <= j < self.entries().len() && i != j
            ==> self.entries()[i].name@ != self.entries()[j].name@
    }

    /// Whether a switch named `name` exists.
    pub open spec fn has(&self, name: Seq<char>) -> bool {
        exists|i: int| 0 <= i < self.entries().len() && self.entries()[i].name@ == name
    }

    /// The switch named `name`.
    pub open spec fn lookup(&self, name: Seq<char>) -> VirtualSwitch {
        self.entries()[choose|i: int| 0 <= i < self.entries().len() && self.entries()[i].name@ == name]
    }

    /// A manager with no switches.
    pub fn new() -> (m: Self)
        ensures
            m.wf(),
            m.entries().len() == 0,
    {
        NetworkManager { switches: Vec::new() }
    }

    fn position(&self, name: &str) -> (r: Option<usize>)
        ensures
            r is None ==> !self.has(name@),
            r matches Some(i) ==> i < self.entries().len() && self.entries()[i as int].name@ == name@,
    {
        let mut i: usize = 0;
        while i < self.switches.len()
            invariant
                i <= self.switches@.len(),
                forall|k: int| 0 <= k < i ==> self.switches@[k].name@ != name@,
            decreases self.switches@.len() - i,
        {
            if str_eq(self.switches[i].name.as_str(), name) {
                return Some(i);
            }
            i = i + 1;
        }
        None
    }

    fn add(&mut self, sw: VirtualSwitch)
        requires
            old(self).wf(),
            !old(self).has(sw.name@),
        ensures
            final(self).wf(),
            final(self).entries() == old(self).entries().push(sw),
    {
        self.switches.push(sw);
    }

    /// Create a switch named `name` with the default addressing of `mode`
    /// and return its id; fails when the name is taken.
    pub fn create_switch(&mut self, name: String, mode: VirtualSwitchMode) -> (r: Result<u128, NetworkError>)
        requires
            old(self).wf(),
        ensures
            final(self).wf(),
            old(self).has(name@) ==> (r matches Err(NetworkError::SwitchAlreadyExists(n)) && n@ == name@)
                && final(self).entries() == old(self).entries(),
            !old(self).has(name@) ==> (r matches Ok(id) && final(self).entries().len() == old(self).entries().len() + 1
                && final(self).entries().drop_last() == old(self).entries()
                && final(self).entries().last().id == id
                && ({
                    let (subnet, gw, start, end) = switch::default_addressing(mode);
                    final(self).entries().last().is_fresh(name@, mode, subnet, gw, switch::default_dhcp(mode), start, end, None)
                })),
    {
        if self.position(name.as_str()).is_some() {
            return Err(NetworkError::SwitchAlreadyExists(name));
        }
        let sw = VirtualSwitch::new(name, mode);
        let id = sw.id;
        self.add(sw);
        assert(self.entries().drop_last() =~= old(self).entries());
        Ok(id)
    }

    /// Create a switch with explicit settings and return its id; fails when
    /// the name is taken.
    pub fn create_switch_detailed(
        &mut self,
        name: String,
        mode: VirtualSwitchMode,
        subnet: Ipv4Subnet,
        gateway: u32,
        dhcp_enabled: bool,
        dhcp_range_start: u32,
        dhcp_range_end: u32,
        adapter_name: Option<String>,
    ) -> (r: Result<u128, NetworkError>)
        requires
            old(self).wf(),
        ensures
            final(self).wf(),
            old(self).has(name@) ==> (r matches Err(NetworkError::SwitchAlreadyExists(n)) && n@ == name@)
                && final(self).entries() == old(self).entries(),
            !old(self).has(name@) ==> (r matches Ok(id) && final(self).entries().len() == old(self).entries().len() + 1
                && final(self).entries().drop_last() == old(self).entries()
                && final(self).entries().last().id == id
                && final(self).entries().last().is_fresh(name@, mode, subnet, gateway, dhcp_enabled,
                    dhcp_range_start, dhcp_range_end, match adapter_name { Some(a) => Some(a@), None => None })),
    {
        if self.position(name.as_str()).is_some() {
            return Err(NetworkError::SwitchAlreadyExists(name));
        }
        let sw = VirtualSwitch::new_detailed(name, mode, subnet, gateway, dhcp_enabled, dhcp_range_start,
            dhcp_range_end, adapter_name);
        let id = sw.id;
        self.add(sw);
        assert(self.entries().drop_last() =~= old(self).entries());
        Ok(id)
    }

    /// Change the settings of the switch named `name`; its id, name, DNS
    /// servers, limits and VM count stay. Fails when there is no such switch.
    pub fn update_switch(
        &mut self,
        name: &str,
        mode: VirtualSwitchMode,
        subnet: Ipv4Subnet,
        gateway: u32,
        dhcp_enabled: bool,
        dhcp_range_start: u32,
        dhcp_range_end: u32,
        adapter_name: Option<String>,
    ) -> (r: Result<(), NetworkError>)
        requires
            old(self).wf(),
        ensures
            final(self).wf(),
            !old(self).has(name@) ==> (r matches Err(NetworkError::SwitchNotFound(n)) && n@ == name@)
                && final(self).entries() == old(self).entries(),
            old(self).has(name@) ==> r is Ok && final(self).entries().len() == old(self).entries().len()
                && exists|i: int| 0 <= i < old(self).entries().len() && old(self).entries()[i].name@ == name@
                    && final(self).entries() == old(self).entries().update(i, VirtualSwitch {
                        mode,
                        subnet,
                        gateway,
                        dhcp_enabled,
                        dhcp_range_start,
                        dhcp_range_end,
                        adapter_name,
                        ..old(self).entries()[i]
                    }),
    {
        match self.position(name) {
            None => Err(NetworkError::SwitchNotFound(String::from_str(name))),
            Some(i) => {
                let ghost before = self.switches@;
                let mut sw = self.switches.remove(i);
                sw.mode = mode;
                sw.subnet = subnet;
                sw.gateway = gateway;
                sw.dhcp_enabled = dhcp_enabled;
                sw.dhcp_range_start = dhcp_range_start;
                sw.dhcp_range_end = dhcp_range_end;
                sw.adapter_name = adapter_name;
                self.switches.insert(i, sw);
                assert(self.switches@ =~= before.update(i as int, self.switches@[i as int]));
                Ok(())
            },
        }
    }

    /// Delete the switch named `name`; fails when there is none.
    pub fn delete_switch(&mut self, name: &str) -> (r: Result<(), NetworkError>)
        requires
            old(self).wf(),
        ensures
            final(self).wf(),
            !old(self).has(name@) ==> (r matches Err(NetworkError::SwitchNotFound(n)) && n@ == name@)
                && final(self).entries() == old(self).entries(),
            old(self).has(name@) ==> r is Ok && !final(self).has(name@)
                && final(self).entries().len() == old(self).entries().len() - 1
                && forall|n: Seq<char>| n != name@ ==> final(self).has(n) == old(self).has(n),
    {
        match self.position(name) {
            None => Err(NetworkError::SwitchNotFound(String::from_str(name))),
            Some(i) => {
                let _ = self.switches.remove(i);
                proof {
                    assert forall|n: Seq<char>| n != name@ implies self.has(n) == old(self).has(n) by {
                        if old(self).has(n) {
                            let k = choose|k: int| 0 <= k < old(self).entries().len() && old(self).entries()[k].name@ == n;
                            if k < i { assert(self.entries()[k].name@ == n); } else { assert(self.entries()[k - 1].name@ == n); }
                        }
                        if self.has(n) {
                            let k = choose|k: int| 0 <= k < self.entries().len() && self.entries()[k].name@ == n;
                            if k < i { assert(old(self).entries()[k].name@ == n); } else { assert(old(self).entries()[k + 1].name@ == n); }
                        }
                    }
                    if self.has(name@) {
                        let k = choose|k: int| 0 <= k < self.entries().len() && self.entries()[k].name@ == name@;
                        if k < i { assert(old(self).entries()[k].name@ == name@); } else { assert(old(self).entries()[k + 1].name@ == name@); }
                    }
                }
                Ok(())
            },
        }
    }

    /// Copies of all switches.
    pub fn list_switches(&self) -> (r: Vec<VirtualSwitch>)
        ensures
            r@.len() == self.entries().len(),
            forall|k: int| 0 <= k < r@.len() ==> #[trigger] r@[k].same_as(&self.entries()[k]),
    {
        let mut r: Vec<VirtualSwitch> = Vec::new();
        let mut i: usize = 0;
        while i < self.switches.len()
            invariant
                i <= self.switches@.len(),
                r@.len() == i,
                forall|k: int| 0 <= k < i ==> #[trigger] r@[k].same_as(&self.switches@[k]),
            decreases self.switches@.len() - i,
        {
            r.push(self.switches[i].duplicate());
            i = i + 1;
        }
        r
    }

    /// A copy of the switch named `name`, if any.
    pub fn get_switch(&self, name: &str) -> (r: Option<VirtualSwitch>)
        requires
            self.wf(),
        ensures
            !self.has(name@) ==> r is None,
            self.has(name@) ==> (r matches Some(s) && s.same_as(&self.lookup(name@))),
    {
        match self.position(name) {
            None => None,
            Some(i) => {
                proof {
                    let k = choose|k: int| 0 <= k < self.entries().len() && self.entries()[k].name@ == name@;
                    assert(k == i);
                }
                Some(self.switches[i].duplicate())
            },
        }
    }
}

/// A host network interface as the host reports it.
pub struct HostAdapter {
    pub name: String,
    /// Its addresses, already rendered.
    pub addresses: Vec<String>,
    /// Its MAC address, already rendered.
    pub mac: String,
}

/// `parts` joined with ", ".
pub open spec fn join_comma(parts: Seq<Seq<char>>) -> Seq<char>
    decreases parts.len(),
{
    if parts.len() == 0 {
        seq![]
    } else if parts.len() == 1 {
        parts[0]
    } else {
        join_comma(parts.drop_last()) + ", "@ + parts.last()
    }
}

/// The entry shown for one adapter: `name (IP: addrs, MAC: mac)`, with
/// "No IP" when it has no address.
pub open spec fn adapter_entry(a: HostAdapter) -> Seq<char> {
    let ips = crate::hypervisor::backend::shell::lines_view(a.addresses@);
    a.name@ + " (IP: "@ + (if ips.len() == 0 { "No IP"@ } else { join_comma(ips) }) + ", MAC: "@ + a.mac@ + ")"@
}

/// The adapter list shown to the user: one entry per host adapter, or two
/// generic entries when the host reports none.
pub open spec fn adapter_list(adapters: Seq<HostAdapter>) -> Seq<Seq<char>> {
    if adapters.len() == 0 {
        seq!["Ethernet (Default Host Interface)"@, "Wi-Fi (Wireless LAN Adapter)"@]
    } else {
        Seq::new(adapters.len(), |i: int| adapter_entry(adapters[i]))
    }
}

fn join_addresses(parts: &Vec<String>) -> (r: String)
    ensures
        r@ == join_comma(crate::hypervisor::backend::shell::lines_view(parts@)),
{
    let ghost v = crate::hypervisor::backend::shell::lines_view(parts@);
    let mut r = String::new();
    let mut i: usize = 0;
    while i < parts.len()
        invariant
            i <= parts@.len(),
            v == crate::hypervisor::backend::shell::lines_view(parts@),
            r@ == join_comma(v.subrange(0, i as int)),
        decreases parts@.len() - i,
    {
        assert(v.subrange(0, i + 1).drop_last() =~= v.subrange(0, i as int));
        if i > 0 {
            push_str(&mut r, ", ");
        } else {
            assert(r@ =~= Seq::<char>::empty());
        }
        push_str(&mut r, parts[i].as_str());
        i = i + 1;
        assert(r@ =~= join_comma(v.subrange(0, i as int)));
    }
    assert(v.subrange(0, parts@.len() as int) =~= v);
    r
}

impl NetworkManager {
    /// The adapter list for the adapters the host reported.
    pub fn list_physical_adapters(&self, adapters: &Vec<HostAdapter>) -> (r: Vec<String>)
        ensures
            crate::hypervisor::backend::shell::lines_view(r@) == adapter_list(adapters@),
    {
        let mut r: Vec<String> = Vec::new();
        if adapters.len() == 0 {
            r.push(String::from_str("Ethernet (Default Host Interface)"));
            r.push(String::from_str("Wi-Fi (Wireless LAN Adapter)"));
            assert(crate::hypervisor::backend::shell::lines_view(r@) =~= adapter_list(adapters@));
            return r;
        }
        let mut i: usize = 0;
        while i < adapters.len()
            invariant
                i <= adapters@.len(),
                adapters@.len() > 0,
                crate::hypervisor::backend::shell::lines_view(r@) =~= Seq::new(i as nat, |k: int| adapter_entry(adapters@[k])),
            decreases adapters@.len() - i,
        {
            let a = &adapters[i];
            let mut line = a.name.clone();
            push_str(&mut line, " (IP: ");
            if a.addresses.len() == 0 {
                push_str(&mut line, "No IP");
            } else {
                let joined = join_addresses(&a.addresses);
                push_str(&mut line, joined.as_str());
            }
            push_str(&mut line, ", MAC: ");
            push_str(&mut line, a.mac.as_str());
            push_str(&mut line, ")");
            assert(line@ =~= adapter_entry(adapters@[i as int]));
            let ghost prev = crate::hypervisor::backend::shell::lines_view(r@);
            r.push(line);
            assert(crate::hypervisor::backend::shell::lines_view(r@) =~= prev.push(adapter_entry(adapters@[i as int])));
            i = i + 1;
            assert(crate::hypervisor::backend::shell::lines_view(r@) =~= Seq::new(i as nat, |k: int| adapter_entry(adapters@[k])));
        }
        r
    }
}

/// Creating a switch under a new name and then deleting it leaves the set of
/// names as it was: `m1` is `m0` after a successful `create_switch(name, ..)`
/// and `m2` is `m1` after `delete_switch(name)`.
pub proof fn law_create_delete_restores_names(m0: NetworkManager, m1: NetworkManager, m2: NetworkManager, name: Seq<char>)
    requires
        !m0.has(name),
        m1.entries().drop_last() == m0.entries(),
        m1.entries().len() == m0.entries().len() + 1,
        m1.entries().last().name@ == name,
        !m2.has(name),
        forall|n: Seq<char>| n != name ==> m2.has(n) == m1.has(n),
    ensures
        forall|n: Seq<char>| m2.has(n) == m0.has(n),
{
    assert forall|n: Seq<char>| m2.has(n) == m0.has(n) by {
        if n != name {
            if m0.has(n) {
                let k = choose|k: int| 0 <= k < m0.entries().len() && m0.entries()[k].name@ == n;
                assert(m1.entries()[k] == m0.entries()[k]);
            }
            if m1.has(n) {
                let k = choose|k: int| 0 <= k < m1.entries().len() && m1.entries()[k].name@ == n;
                if k < m0.entries().len() {
                    assert(m1.entries()[k] == m0.entries()[k]);
                }
            }
        }
    }
}

} // verus!
