//! The report of a Bluetooth Low Energy scan.

use vstd::prelude::*;
use vstd::string::*;
use crate::catalog::{registry_of, tool_descriptors, Tool};
use crate::dispatch::{concluded, dispatch, planned, result_text, unknown_tool, PlanView, ToolOutcome};
use crate::registry::{has_tool, tool_names_distinct, Registry, ToolDescriptor};
use crate::schema::{Arguments, RawArguments};
use crate::text::{concat_all, decimal, lemma_concat_all_push, push_decimal, push_signed_decimal, signed_decimal};

verus! {

/// How long a scan listens before its results are collected, in seconds.
pub const SCAN_WINDOW_SECONDS: u64 = 3;

/// One device that answered during the scan window.
#[derive(Clone, Debug, PartialEq, Eq)]
pub struct BlePeripheral {
    /// The advertised name.
    pub name: Option<String>,
    /// The hardware address, as text.
    pub address: Option<String>,
    /// Received signal strength in dBm.
    pub rssi: Option<i16>,
}

/// What scanning on one adapter led to.
#[derive(Clone, Debug, PartialEq, Eq)]
pub enum ScanOutcome {
    /// The scan could not be started.
    StartFailed(String),
    /// The scan ran, but its results could not be read.
    ListFailed(String),
    /// The scan ran and these devices were seen.
    Found(Vec<BlePeripheral>),
}

/// One adapter with the outcome of its scan.
#[derive(Clone, Debug, PartialEq, Eq)]
pub struct AdapterScan {
    /// The adapter's description of itself.
    pub info: Option<String>,
    pub outcome: ScanOutcome,
}

/// The name under which a device is listed.
pub open spec fn name_text(p: BlePeripheral) -> Seq<char> {
    match p.name {
        Some(n) => n@,
        None => "Unknown"@,
    }
}

/// The address under which a device is listed.
pub open spec fn address_text(p: BlePeripheral) -> Seq<char> {
    match p.address {
        Some(a) => a@,
        None => "??:??:??:??:??:??"@,
    }
}

/// The signal strength in brackets, or nothing where it is unknown.
pub open spec fn rssi_text(p: BlePeripheral) -> Seq<char> {
    match p.rssi {
        Some(r) => " ("@ + signed_decimal(r as int) + "dBm)"@,
        None => Seq::empty(),
    }
}

/// The two lines of the device at position `i` (counted from zero, shown
/// from one).
pub open spec fn peripheral_lines(i: int, p: BlePeripheral) -> Seq<char> {
    "  "@ + decimal((i + 1) as nat) + ". "@ + name_text(p) + rssi_text(p) + "\n     Address: "@
        + address_text(p) + "\n"@
}

/// The numbered list of the first `n` devices.
pub open spec fn peripheral_list(ps: Seq<BlePeripheral>, n: int) -> Seq<char> {
    concat_all(Seq::new(n as nat, |i: int| peripheral_lines(i, ps[i])))
}

/// The adapter's description of itself, or a placeholder.
pub open spec fn info_text(a: AdapterScan) -> Seq<char> {
    match a.info {
        Some(t) => t@,
        None => "Unknown adapter"@,
    }
}

/// The block of one adapter.
pub open spec fn adapter_section(a: AdapterScan) -> Seq<char> {
    "Adapter: "@ + info_text(a) + "\n\n"@ + (match a.outcome {
        ScanOutcome::StartFailed(reason) => "  Could not scan: "@ + reason@ + "\n"@,
        ScanOutcome::ListFailed(_) => Seq::empty(),
        ScanOutcome::Found(ps) => if ps@.len() == 0 {
            "  No BLE devices found nearby.\n"@
        } else {
            peripheral_list(ps@, ps@.len() as int) + "\n  Total: "@ + decimal(ps@.len())
                + " BLE devices\n"@
        },
    })
}

/// The position of the first adapter at or after `from` whose results could
/// not be read; the number of adapters where there is none.
pub open spec fn first_list_failure(adapters: Seq<AdapterScan>, from: int) -> int
    decreases adapters.len() - from,
{
    if from < 0 || from >= adapters.len() {
        adapters.len() as int
    } else if adapters[from].outcome is ListFailed {
        from
    } else {
        first_list_failure(adapters, from + 1)
    }
}

/// The scan report. Without adapters it says so. Results that could not be
/// read on some adapter make the whole scan fail, with the reason of the
/// first such adapter. Otherwise every adapter has its block, in order.
pub open spec fn scan_report(adapters: Seq<AdapterScan>) -> Result<Seq<char>, Seq<char>> {
    let failed = first_list_failure(adapters, 0);
    if adapters.len() == 0 {
        Ok("Bluetooth Status:\n\nNo Bluetooth adapters found.\n"@)
    } else if failed < adapters.len() {
        Err("Failed to get peripherals: "@ + adapters[failed].outcome->ListFailed_0@)
    } else {
        Ok(
            "Bluetooth Devices:\n\n"@ + concat_all(
                adapters.map_values(|a: AdapterScan| adapter_section(a)),
            ),
        )
    }
}

fn push_name(out: &mut String, p: &BlePeripheral)
    ensures
        final(out)@ == old(out)@ + name_text(*p),
{
    match &p.name {
        Some(n) => out.append(n.as_str()),
        None => out.append("Unknown"),
    }
}

fn push_rssi(out: &mut String, p: &BlePeripheral)
    ensures
        final(out)@ == old(out)@ + rssi_text(*p),
{
    let ghost before = out@;
    match p.rssi {
        Some(r) => {
            out.append(" (");
            push_signed_decimal(out, r as i64);
            out.append("dBm)");
        },
        None => {},
    }
    assert(out@ =~= before + rssi_text(*p));
}

fn push_address(out: &mut String, p: &BlePeripheral)
    ensures
        final(out)@ == old(out)@ + address_text(*p),
{
    match &p.address {
        Some(a) => out.append(a.as_str()),
        None => out.append("??:??:??:??:??:??"),
    }
}

fn push_peripheral_lines(out: &mut String, i: usize, p: &BlePeripheral)
    requires
        i < usize::MAX,
    ensures
        final(out)@ == old(out)@ + peripheral_lines(i as int, *p),
{
    let ghost before = out@;
    out.append("  ");
    push_decimal(out, (i + 1) as u64);
    out.append(". ");
    push_name(out, p);
    push_rssi(out, p);
    out.append("\n     Address: ");
    push_address(out, p);
    out.append("\n");
    assert(out@ =~= before + peripheral_lines(i as int, *p));
}

fn push_peripheral_list(out: &mut String, ps: &Vec<BlePeripheral>)
    ensures
        final(out)@ == old(out)@ + peripheral_list(ps@, ps@.len() as int),
{
    let ghost before = out@;
    let ghost line = |i: int| peripheral_lines(i, ps@[i]);
    let mut i: usize = 0;
    assert(Seq::new(0, line) =~= Seq::<Seq<char>>::empty());
    assert(out@ =~= before + peripheral_list(ps@, 0));
    while i < ps.len()
        invariant
            i <= ps.len(),
            line == |i: int| peripheral_lines(i, ps@[i]),
            out@ == before + peripheral_list(ps@, i as int),
        decreases ps.len() - i,
    {
        let ghost sofar = out@;
        push_peripheral_lines(out, i, &ps[i]);
        proof {
            let done = Seq::new(i as nat, line);
            assert(Seq::new((i + 1) as nat, line) =~= done.push(line(i as int)));
            lemma_concat_all_push(done, line(i as int));
            assert(out@ =~= before + peripheral_list(ps@, i + 1));
        }
        i += 1;
    }
}

fn push_adapter_section(out: &mut String, a: &AdapterScan)
    ensures
        final(out)@ == old(out)@ + adapter_section(*a),
{
    let ghost before = out@;
    out.append("Adapter: ");
    match &a.info {
        Some(t) => out.append(t.as_str()),
        None => out.append("Unknown adapter"),
    }
    out.append("\n\n");
    match &a.outcome {
        ScanOutcome::StartFailed(reason) => {
            out.append("  Could not scan: ");
            out.append(reason.as_str());
            out.append("\n");
        },
        ScanOutcome::ListFailed(_) => {},
        ScanOutcome::Found(ps) => {
            if ps.len() == 0 {
                out.append("  No BLE devices found nearby.\n");
            } else {
                push_peripheral_list(out, ps);
                out.append("\n  Total: ");
                push_decimal(out, ps.len() as u64);
                out.append(" BLE devices\n");
            }
        },
    }
    assert(out@ =~= before + adapter_section(*a));
}

/// Builds the report of a finished scan from what each adapter saw.
pub fn build_scan_report(adapters: &Vec<AdapterScan>) -> (report: Result<String, String>)
    ensures
        match scan_report(adapters@) {
            Ok(text) => report is Ok && report->Ok_0@ == text,
            Err(reason) => report is Err && report->Err_0@ == reason,
        },
{
    if adapters.len() == 0 {
        return Ok(String::from_str("Bluetooth Status:\n\nNo Bluetooth adapters found.\n"));
    }
    let mut out = String::from_str("Bluetooth Devices:\n\n");
    let ghost before = out@;
    let ghost section = |a: AdapterScan| adapter_section(a);
    let mut i: usize = 0;
    assert(adapters@.take(0).map_values(section) =~= Seq::<Seq<char>>::empty());
    assert(out@ =~= before + concat_all(adapters@.take(0).map_values(section)));
    while i < adapters.len()
        invariant
            i <= adapters.len(),
            adapters.len() > 0,
            section == |a: AdapterScan| adapter_section(a),
            first_list_failure(adapters@, 0) == first_list_failure(adapters@, i as int),
            out@ == before + concat_all(adapters@.take(i as int).map_values(section)),
            before == "Bluetooth Devices:\n\n"@,
        decreases adapters.len() - i,
    {
        let a = &adapters[i];
        match &a.outcome {
            ScanOutcome::ListFailed(reason) => {
                let mut message = String::from_str("Failed to get peripherals: ");
                message.append(reason.as_str());
                return Err(message);
            },
            _ => {},
        }
        let ghost sofar = out@;
        push_adapter_section(&mut out, a);
        proof {
            let done = adapters@.take(i as int).map_values(section);
            assert(adapters@.take(i + 1).map_values(section) =~= done.push(adapter_section(*a)));
            lemma_concat_all_push(done, adapter_section(*a));
        }
        i += 1;
    }
    assert(adapters@.take(adapters.len() as int) =~= adapters@);
    Ok(out)
}

/// The tools of the Bluetooth server, in the order in which it lists them.
pub open spec fn bluetooth_tools() -> Seq<Tool> {
    seq![Tool::ScanBle]
}

/// The server of the Bluetooth tool.
#[derive(Debug)]
pub struct BluetoothServer {
    /// The tools of this server.
    pub tool_router: Registry<Tool>,
    /// How long a scan listens, in seconds.
    pub scan_window_seconds: u64,
}

impl Default for BluetoothServer {
    fn default() -> (server: BluetoothServer)
        ensures
            server.tool_router.handlers() == bluetooth_tools(),
            server.tool_router.descriptors() == tool_descriptors(bluetooth_tools()),
    {
        BluetoothServer::new()
    }
}

impl BluetoothServer {
    /// The server with its tools registered.
    pub fn new() -> (server: BluetoothServer)
        ensures
            server.tool_router.handlers() == bluetooth_tools(),
            server.tool_router.descriptors() == tool_descriptors(bluetooth_tools()),
            server.scan_window_seconds == SCAN_WINDOW_SECONDS,
    {
        let tools = vec![Tool::ScanBle];
        assert(tools@ =~= bluetooth_tools());
        BluetoothServer { tool_router: registry_of(&tools).unwrap(), scan_window_seconds: SCAN_WINDOW_SECONDS }
    }

    /// What the server says of itself.
    pub fn instructions(&self) -> (text: &'static str)
        ensures
            text@ == "Cross-platform Bluetooth Low Energy device scanner"@,
    {
        "Cross-platform Bluetooth Low Energy device scanner"
    }

    /// The descriptors of the server's tools, in order.
    pub fn list_tools(&self) -> (listed: Vec<&ToolDescriptor>)
        ensures
            listed@.len() == self.tool_router.descriptors().len(),
            forall|i: int|
                0 <= i < listed@.len() ==> (#[trigger] listed@[i])@
                    == self.tool_router.descriptors()[i],
            tool_names_distinct(self.tool_router.descriptors()),
    {
        self.tool_router.list()
    }

    /// Handles a call of one of the server's tools by name, running the
    /// tool through `run`.
    pub fn call_tool<F>(&self, run: &F, name: &str, raw: &RawArguments) -> (outcome: ToolOutcome) where
        F: Fn(&Tool, &Arguments) -> Result<String, String>,

        requires
            forall|tool: &Tool, args: &Arguments|
                self.tool_router.handlers().contains(*tool) ==> call_requires(run, (tool, args)),
        ensures
            match planned(self.tool_router.descriptors(), name@, raw@) {
                PlanView::Reject(rejection) => outcome@ == rejection,
                PlanView::Invoke(at, typed) => exists|args: Arguments, result: Result<String, String>|
                    args@ == typed && call_ensures(
                        run,
                        (&self.tool_router.handlers()[at], &args),
                        result,
                    ) && outcome@ == concluded(result_text(result)),
            },
            !has_tool(self.tool_router.descriptors(), name@) ==> outcome@ == unknown_tool(name@),
    {
        dispatch(&self.tool_router, run, name, raw)
    }
}

impl BluetoothServer {
    /// Builds the report of a finished scan from what each adapter saw.
    pub fn scan_ble_devices(&self, adapters: &Vec<AdapterScan>) -> (report: Result<String, String>)
        ensures
            match scan_report(adapters@) {
                Ok(text) => report is Ok && report->Ok_0@ == text,
                Err(reason) => report is Err && report->Err_0@ == reason,
            },
    {
        build_scan_report(adapters)
    }
}

} // verus!
