//! The report on network interfaces.

use vstd::prelude::*;
use vstd::string::*;
use crate::catalog::{registry_of, tool_descriptors, Tool};
use crate::dispatch::{concluded, dispatch, planned, result_text, unknown_tool, PlanView, ToolOutcome};
use crate::registry::{has_tool, tool_names_distinct, Registry, ToolDescriptor};
use crate::schema::{Arguments, RawArguments};
use crate::text::{concat_all, decimal, has_prefix, lemma_concat_all_push, push_decimal, same_text, starts_with};

verus! {

/// One address of an interface, rendered as text.
#[derive(Clone, Debug, PartialEq, Eq)]
pub enum AddressInfo {
    V4 { ip: String, netmask: Option<String>, loopback: bool },
    V6 { ip: String, loopback: bool },
}

/// One network interface.
#[derive(Clone, Debug, PartialEq, Eq)]
pub struct InterfaceInfo {
    pub name: String,
    pub mac_addr: Option<String>,
    pub addr: Vec<AddressInfo>,
}

/// Whether an address is a loopback address.
pub open spec fn is_loopback(a: AddressInfo) -> bool {
    match a {
        AddressInfo::V4 { loopback, .. } => loopback,
        AddressInfo::V6 { loopback, .. } => loopback,
    }
}

/// Whether one of the addresses is a loopback address.
pub open spec fn any_loopback(addrs: Seq<AddressInfo>) -> bool {
    exists|k: int| 0 <= k < addrs.len() && is_loopback(#[trigger] addrs[k])
}

/// The hardware address that stands for "none".
pub open spec fn null_mac() -> Seq<char> {
    "00:00:00:00:00:00"@
}

/// The line of the hardware address; nothing when it is absent, empty or
/// all zeros.
pub open spec fn mac_line(mac: Option<String>) -> Seq<char> {
    match mac {
        Some(m) => if m@.len() == 0 || m@ == null_mac() {
            Seq::empty()
        } else {
            "  MAC: "@ + m@ + "\n"@
        },
        None => Seq::empty(),
    }
}

/// The line of one address. Link-local IPv6 addresses (those that begin
/// with `fe80`) have none.
pub open spec fn address_line(a: AddressInfo) -> Seq<char> {
    match a {
        AddressInfo::V4 { ip, netmask, .. } => "  IPv4: "@ + ip@ + (match netmask {
            Some(m) => " / "@ + m@,
            None => Seq::empty(),
        }) + "\n"@,
        AddressInfo::V6 { ip, .. } => if starts_with(ip@, "fe80"@) {
            Seq::empty()
        } else {
            "  IPv6: "@ + ip@ + "\n"@
        },
    }
}

/// The lines of all addresses, in order.
pub open spec fn address_lines(addrs: Seq<AddressInfo>) -> Seq<char> {
    concat_all(addrs.map_values(|a: AddressInfo| address_line(a)))
}

/// The block of one interface.
pub open spec fn interface_section(iface: InterfaceInfo) -> Seq<char> {
    iface.name@ + (if any_loopback(iface.addr@) {
        " (loopback)"@
    } else {
        Seq::empty()
    }) + "\n"@ + mac_line(iface.mac_addr) + address_lines(iface.addr@) + "\n"@
}

/// How many interfaces have at least one address.
pub open spec fn active_count(interfaces: Seq<InterfaceInfo>) -> nat {
    interfaces.filter(|i: InterfaceInfo| i.addr@.len() > 0).len()
}

/// The report: a note when there is no interface; else a block for each and
/// the totals.
pub open spec fn interfaces_report(interfaces: Seq<InterfaceInfo>) -> Seq<char> {
    if interfaces.len() == 0 {
        "Network Interfaces:\n\nNo network interfaces found.\n"@
    } else {
        "Network Interfaces:\n\n"@ + concat_all(
            interfaces.map_values(|i: InterfaceInfo| interface_section(i)),
        ) + "Total interfaces: "@ + decimal(interfaces.len()) + " ("@ + decimal(
            active_count(interfaces),
        ) + " with addresses)\n"@
    }
}

/// Computes [`any_loopback`].
pub fn has_loopback(addrs: &Vec<AddressInfo>) -> (found: bool)
    ensures
        found == any_loopback(addrs@),
{
    let mut i: usize = 0;
    while i < addrs.len()
        invariant
            i <= addrs.len(),
            forall|k: int| 0 <= k < i ==> !is_loopback(#[trigger] addrs@[k]),
        decreases addrs.len() - i,
    {
        let hit = match &addrs[i] {
            AddressInfo::V4 { loopback, .. } => *loopback,
            AddressInfo::V6 { loopback, .. } => *loopback,
        };
        if hit {
            return true;
        }
        i += 1;
    }
    false
}

fn push_mac_line(out: &mut String, mac: &Option<String>)
    ensures
        final(out)@ == old(out)@ + mac_line(*mac),
{
    let ghost before = out@;
    match mac {
        Some(m) => {
            if !m.as_str().is_empty() && !same_text(m.as_str(), "00:00:00:00:00:00") {
                out.append("  MAC: ");
                out.append(m.as_str());
                out.append("\n");
            }
        },
        None => {},
    }
    assert(out@ =~= before + mac_line(*mac));
}

fn push_address_line(out: &mut String, a: &AddressInfo)
    ensures
        final(out)@ == old(out)@ + address_line(*a),
{
    let ghost before = out@;
    match a {
        AddressInfo::V4 { ip, netmask, .. } => {
            out.append("  IPv4: ");
            out.append(ip.as_str());
            match netmask {
                Some(m) => {
                    out.append(" / ");
                    out.append(m.as_str());
                },
                None => {},
            }
            out.append("\n");
        },
        AddressInfo::V6 { ip, .. } => {
            if !has_prefix(ip.as_str(), "fe80") {
                out.append("  IPv6: ");
                out.append(ip.as_str());
                out.append("\n");
            }
        },
    }
    assert(out@ =~= before + address_line(*a));
}

fn push_address_lines(out: &mut String, addrs: &Vec<AddressInfo>)
    ensures
        final(out)@ == old(out)@ + address_lines(addrs@),
{
    let ghost before = out@;
    let ghost line = |a: AddressInfo| address_line(a);
    let mut i: usize = 0;
    assert(addrs@.take(0).map_values(line) =~= Seq::<Seq<char>>::empty());
    assert(out@ =~= before + address_lines(addrs@.take(0)));
    while i < addrs.len()
        invariant
            i <= addrs.len(),
            line == |a: AddressInfo| address_line(a),
            out@ == before + address_lines(addrs@.take(i as int)),
        decreases addrs.len() - i,
    {
        push_address_line(out, &addrs[i]);
        proof {
            let done = addrs@.take(i as int).map_values(line);
            assert(addrs@.take(i + 1).map_values(line) =~= done.push(address_line(addrs@[i as int])));
            lemma_concat_all_push(done, address_line(addrs@[i as int]));
            assert(out@ =~= before + address_lines(addrs@.take(i + 1)));
        }
        i += 1;
    }
    assert(addrs@.take(addrs.len() as int) =~= addrs@);
}

fn push_interface_section(out: &mut String, iface: &InterfaceInfo)
    ensures
        final(out)@ == old(out)@ + interface_section(*iface),
{
    let ghost before = out@;
    out.append(iface.name.as_str());
    if has_loopback(&iface.addr) {
        out.append(" (loopback)");
    }
    out.append("\n");
    push_mac_line(out, &iface.mac_addr);
    push_address_lines(out, &iface.addr);
    out.append("\n");
    assert(out@ =~= before + interface_section(*iface));
}

/// Computes [`active_count`].
pub fn count_active(interfaces: &Vec<InterfaceInfo>) -> (count: usize)
    ensures
        count == active_count(interfaces@),
{
    let ghost active = |i: InterfaceInfo| i.addr@.len() > 0;
    let mut count: usize = 0;
    let mut i: usize = 0;
    assert(interfaces@.take(0) =~= Seq::<InterfaceInfo>::empty());
    while i < interfaces.len()
        invariant
            i <= interfaces.len(),
            active == |i: InterfaceInfo| i.addr@.len() > 0,
            count == interfaces@.take(i as int).filter(active).len(),
            count <= i,
        decreases interfaces.len() - i,
    {
        proof {
            assert(interfaces@.take(i + 1) =~= interfaces@.take(i as int).push(interfaces@[i as int]));
            Seq::lemma_filter_push(interfaces@.take(i as int), interfaces@[i as int], active);
        }
        if interfaces[i].addr.len() > 0 {
            count += 1;
        }
        i += 1;
    }
    assert(interfaces@.take(interfaces.len() as int) =~= interfaces@);
    count
}

/// The tools of the network server, in the order in which it lists them.
pub open spec fn network_tools() -> Seq<Tool> {
    seq![Tool::Interfaces]
}

/// The server of the network tool.
#[derive(Debug)]
pub struct NetworkServer {
    /// The tools of this server.
    pub tool_router: Registry<Tool>,
}

impl Default for NetworkServer {
    fn default() -> (server: NetworkServer)
        ensures
            server.tool_router.handlers() == network_tools(),
            server.tool_router.descriptors() == tool_descriptors(network_tools()),
    {
        NetworkServer::new()
    }
}

impl NetworkServer {
    /// The server with its tools registered.
    pub fn new() -> (server: NetworkServer)
        ensures
            server.tool_router.handlers() == network_tools(),
            server.tool_router.descriptors() == tool_descriptors(network_tools()),
    {
        let tools = vec![Tool::Interfaces];
        assert(tools@ =~= network_tools());
        NetworkServer { tool_router: registry_of(&tools).unwrap() }
    }

    /// What the server says of itself.
    pub fn instructions(&self) -> (text: &'static str)
        ensures
            text@ == "Cross-platform network interface information server"@,
    {
        "Cross-platform network interface information server"
    }

    /// The descriptors of the server's tools, in order.
    pub fn list_tools(&self) -> (listed: Vec<&ToolDescriptor>)
        ensures
            listed@.len() == self.tool_router.descriptors().len(),
            forall|i: int|
                0 <= i < listed@.len() ==> (#[trigger] listed@[i])@
                    == self.tool_router.descriptors()[i],
            tool_names_distinct(self.tool_router.descriptors()),
    {
        self.tool_router.list()
    }

    /// Handles a call of one of the server's tools by name, running the
    /// tool through `run`.
    pub fn call_tool<F>(&self, run: &F, name: &str, raw: &RawArguments) -> (outcome: ToolOutcome) where
        F: Fn(&Tool, &Arguments) -> Result<String, String>,

        requires
            forall|tool: &Tool, args: &Arguments|
                self.tool_router.handlers().contains(*tool) ==> call_requires(run, (tool, args)),
        ensures
            match planned(self.tool_router.descriptors(), name@, raw@) {
                PlanView::Reject(rejection) => outcome@ == rejection,
                PlanView::Invoke(at, typed) => exists|args: Arguments, result: Result<String, String>|
                    args@ == typed && call_ensures(
                        run,
                        (&self.tool_router.handlers()[at], &args),
                        result,
                    ) && outcome@ == concluded(result_text(result)),
            },
            !has_tool(self.tool_router.descriptors(), name@) ==> outcome@ == unknown_tool(name@),
    {
        dispatch(&self.tool_router, run, name, raw)
    }
}

impl NetworkServer {
    /// The report on the given interfaces.
    pub fn format_interfaces(interfaces: &Vec<InterfaceInfo>) -> (report: String)
        ensures
            report@ == interfaces_report(interfaces@),
    {
        if interfaces.len() == 0 {
            return String::from_str("Network Interfaces:\n\nNo network interfaces found.\n");
        }
        let mut out = String::from_str("Network Interfaces:\n\n");
        let ghost before = out@;
        let ghost section = |i: InterfaceInfo| interface_section(i);
        let mut i: usize = 0;
        assert(interfaces@.take(0).map_values(section) =~= Seq::<Seq<char>>::empty());
        assert(out@ =~= before + concat_all(interfaces@.take(0).map_values(section)));
        while i < interfaces.len()
            invariant
                i <= interfaces.len(),
                section == |i: InterfaceInfo| interface_section(i),
                out@ == before + concat_all(interfaces@.take(i as int).map_values(section)),
            decreases interfaces.len() - i,
        {
            push_interface_section(&mut out, &interfaces[i]);
            proof {
                let done = interfaces@.take(i as int).map_values(section);
                assert(interfaces@.take(i + 1).map_values(section) =~= done.push(
                    interface_section(interfaces@[i as int]),
                ));
                lemma_concat_all_push(done, interface_section(interfaces@[i as int]));
            }
            i += 1;
        }
        assert(interfaces@.take(interfaces.len() as int) =~= interfaces@);
        let active = count_active(interfaces);
        out.append("Total interfaces: ");
        push_decimal(&mut out, interfaces.len() as u64);
        out.append(" (");
        push_decimal(&mut out, active as u64);
        out.append(" with addresses)\n");
        assert(out@ =~= interfaces_report(interfaces@));
        out
    }

    /// The report on the given interfaces.
    pub fn get_interfaces(&self, interfaces: &Vec<InterfaceInfo>) -> (report: String)
        ensures
            report@ == interfaces_report(interfaces@),
    {
        Self::format_interfaces(interfaces)
    }
}

} // verus!
