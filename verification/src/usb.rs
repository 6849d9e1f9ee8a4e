//! The report on USB devices.

use vstd::prelude::*;
use vstd::string::*;
use crate::catalog::{registry_of, tool_descriptors, Tool};
use crate::dispatch::{concluded, dispatch, planned, result_text, unknown_tool, PlanView, ToolOutcome};
use crate::registry::{has_tool, tool_names_distinct, Registry, ToolDescriptor};
use crate::schema::{Arguments, RawArguments};
use crate::text::{concat_all, decimal, hexadecimal, hexadecimal_string, lemma_concat_all_push, push_decimal, push_zero_padded, zero_padded};

verus! {

/// One USB device.
#[derive(Clone, Debug, PartialEq, Eq)]
pub struct UsbDevice {
    pub manufacturer: Option<String>,
    pub product: Option<String>,
    pub serial: Option<String>,
    pub vendor_id: u16,
    pub product_id: u16,
    pub bus_number: u8,
    pub device_address: u8,
}

/// A 16-bit identifier as four hexadecimal digits.
pub open spec fn id_text(id: u16) -> Seq<char> {
    zero_padded(hexadecimal(id as nat), 4)
}

/// A descriptor string that may be missing: the empty text when it is.
pub open spec fn descriptor(s: Option<String>) -> Seq<char> {
    match s {
        Some(t) => t@,
        None => Seq::empty(),
    }
}

/// The name under which a device is listed: its product name, or its two
/// identifiers when it has none.
pub open spec fn display_name(d: UsbDevice) -> Seq<char> {
    if descriptor(d.product).len() > 0 {
        descriptor(d.product)
    } else {
        "Device "@ + id_text(d.vendor_id) + ":"@ + id_text(d.product_id)
    }
}

/// A labelled line that is only there when its value is not empty.
pub open spec fn labelled_line(label: Seq<char>, value: Seq<char>) -> Seq<char> {
    if value.len() > 0 {
        label + value + "\n"@
    } else {
        Seq::empty()
    }
}

/// The heading of the device at position `i` (counted from zero, shown
/// from one), and the line of its manufacturer.
pub open spec fn device_heading(i: int, d: UsbDevice) -> Seq<char> {
    decimal((i + 1) as nat) + ". "@ + display_name(d) + "\n"@ + labelled_line(
        "   Manufacturer: "@,
        descriptor(d.manufacturer),
    )
}

/// The line of the two identifiers.
pub open spec fn id_line(d: UsbDevice) -> Seq<char> {
    "   Vendor ID: "@ + id_text(d.vendor_id) + ", Product ID: "@ + id_text(d.product_id) + "\n"@
}

/// The line of where the device sits on the bus.
pub open spec fn bus_line(d: UsbDevice) -> Seq<char> {
    "   Bus: "@ + decimal(d.bus_number as nat) + ", Device: "@ + decimal(d.device_address as nat)
        + "\n\n"@
}

/// The block of the device at position `i`.
pub open spec fn device_section(i: int, d: UsbDevice) -> Seq<char> {
    device_heading(i, d) + id_line(d) + labelled_line("   Serial: "@, descriptor(d.serial))
        + bus_line(d)
}

/// The blocks of the first `n` devices.
pub open spec fn device_sections(devices: Seq<UsbDevice>, n: int) -> Seq<char> {
    concat_all(Seq::new(n as nat, |i: int| device_section(i, devices[i])))
}

/// The report: a block for each device and their number, or a note that
/// there are none.
pub open spec fn usb_report(devices: Seq<UsbDevice>) -> Seq<char> {
    "USB Devices:\n\n"@ + device_sections(devices, devices.len() as int) + (if devices.len() == 0 {
        "No USB devices found.\n"@
    } else {
        "Total: "@ + decimal(devices.len()) + " USB devices\n"@
    })
}

/// Appends [`id_text`].
pub fn push_id(out: &mut String, id: u16)
    ensures
        final(out)@ == old(out)@ + id_text(id),
{
    let digits = hexadecimal_string(id as u64);
    push_zero_padded(out, digits.as_str(), 4);
}

fn push_labelled_line(out: &mut String, label: &str, value: &Option<String>)
    ensures
        final(out)@ == old(out)@ + labelled_line(label@, descriptor(*value)),
{
    let ghost before = out@;
    match value {
        Some(v) => {
            if !v.as_str().is_empty() {
                out.append(label);
                out.append(v.as_str());
                out.append("\n");
            }
        },
        None => {},
    }
    assert(out@ =~= before + labelled_line(label@, descriptor(*value)));
}

fn push_display_name(out: &mut String, d: &UsbDevice)
    ensures
        final(out)@ == old(out)@ + display_name(*d),
{
    let ghost before = out@;
    let named = match &d.product {
        Some(p) => !p.as_str().is_empty(),
        None => false,
    };
    if named {
        match &d.product {
            Some(p) => out.append(p.as_str()),
            None => {},
        }
    } else {
        out.append("Device ");
        push_id(out, d.vendor_id);
        out.append(":");
        push_id(out, d.product_id);
    }
    assert(out@ =~= before + display_name(*d));
}

fn push_device_heading(out: &mut String, i: usize, d: &UsbDevice)
    requires
        i < usize::MAX,
    ensures
        final(out)@ == old(out)@ + device_heading(i as int, *d),
{
    let ghost before = out@;
    push_decimal(out, (i + 1) as u64);
    out.append(". ");
    push_display_name(out, d);
    out.append("\n");
    push_labelled_line(out, "   Manufacturer: ", &d.manufacturer);
    assert(out@ =~= before + device_heading(i as int, *d));
}

fn push_id_line(out: &mut String, d: &UsbDevice)
    ensures
        final(out)@ == old(out)@ + id_line(*d),
{
    let ghost before = out@;
    out.append("   Vendor ID: ");
    push_id(out, d.vendor_id);
    out.append(", Product ID: ");
    push_id(out, d.product_id);
    out.append("\n");
    assert(out@ =~= before + id_line(*d));
}

fn push_bus_line(out: &mut String, d: &UsbDevice)
    ensures
        final(out)@ == old(out)@ + bus_line(*d),
{
    let ghost before = out@;
    out.append("   Bus: ");
    push_decimal(out, d.bus_number as u64);
    out.append(", Device: ");
    push_decimal(out, d.device_address as u64);
    out.append("\n\n");
    assert(out@ =~= before + bus_line(*d));
}

fn push_device_section(out: &mut String, i: usize, d: &UsbDevice)
    requires
        i < usize::MAX,
    ensures
        final(out)@ == old(out)@ + device_section(i as int, *d),
{
    let ghost before = out@;
    push_device_heading(out, i, d);
    push_id_line(out, d);
    push_labelled_line(out, "   Serial: ", &d.serial);
    push_bus_line(out, d);
    assert(out@ =~= before + device_section(i as int, *d));
}

/// The report on the given devices.
pub fn build_usb_report(devices: &Vec<UsbDevice>) -> (report: String)
    ensures
        report@ == usb_report(devices@),
{
    let mut out = String::from_str("USB Devices:\n\n");
    let ghost before = out@;
    let ghost section = |i: int| device_section(i, devices@[i]);
    let mut i: usize = 0;
    assert(Seq::new(0, section) =~= Seq::<Seq<char>>::empty());
    assert(out@ =~= before + device_sections(devices@, 0));
    while i < devices.len()
        invariant
            i <= devices.len(),
            section == |i: int| device_section(i, devices@[i]),
            out@ == before + device_sections(devices@, i as int),
        decreases devices.len() - i,
    {
        push_device_section(&mut out, i, &devices[i]);
        proof {
            let done = Seq::new(i as nat, section);
            assert(Seq::new((i + 1) as nat, section) =~= done.push(section(i as int)));
            lemma_concat_all_push(done, section(i as int));
            assert(out@ =~= before + device_sections(devices@, i + 1));
        }
        i += 1;
    }
    if devices.len() == 0 {
        out.append("No USB devices found.\n");
    } else {
        out.append("Total: ");
        push_decimal(&mut out, devices.len() as u64);
        out.append(" USB devices\n");
    }
    assert(out@ =~= usb_report(devices@));
    out
}

/// The tools of the USB server, in the order in which it lists them.
pub open spec fn usb_tools() -> Seq<Tool> {
    seq![Tool::UsbDevices]
}

/// The server of the USB tool.
#[derive(Debug)]
pub struct UsbServer {
    /// The tools of this server.
    pub tool_router: Registry<Tool>,
}

impl Default for UsbServer {
    fn default() -> (server: UsbServer)
        ensures
            server.tool_router.handlers() == usb_tools(),
            server.tool_router.descriptors() == tool_descriptors(usb_tools()),
    {
        UsbServer::new()
    }
}

impl UsbServer {
    /// The server with its tools registered.
    pub fn new() -> (server: UsbServer)
        ensures
            server.tool_router.handlers() == usb_tools(),
            server.tool_router.descriptors() == tool_descriptors(usb_tools()),
    {
        let tools = vec![Tool::UsbDevices];
        assert(tools@ =~= usb_tools());
        UsbServer { tool_router: registry_of(&tools).unwrap() }
    }

    /// What the server says of itself.
    pub fn instructions(&self) -> (text: &'static str)
        ensures
            text@ == "Cross-platform USB device information server"@,
    {
        "Cross-platform USB device information server"
    }

    /// The descriptors of the server's tools, in order.
    pub fn list_tools(&self) -> (listed: Vec<&ToolDescriptor>)
        ensures
            listed@.len() == self.tool_router.descriptors().len(),
            forall|i: int|
                0 <= i < listed@.len() ==> (#[trigger] listed@[i])@
                    == self.tool_router.descriptors()[i],
            tool_names_distinct(self.tool_router.descriptors()),
    {
        self.tool_router.list()
    }

    /// Handles a call of one of the server's tools by name, running the
    /// tool through `run`.
    pub fn call_tool<F>(&self, run: &F, name: &str, raw: &RawArguments) -> (outcome: ToolOutcome) where
        F: Fn(&Tool, &Arguments) -> Result<String, String>,

        requires
            forall|tool: &Tool, args: &Arguments|
                self.tool_router.handlers().contains(*tool) ==> call_requires(run, (tool, args)),
        ensures
            match planned(self.tool_router.descriptors(), name@, raw@) {
                PlanView::Reject(rejection) => outcome@ == rejection,
                PlanView::Invoke(at, typed) => exists|args: Arguments, result: Result<String, String>|
                    args@ == typed && call_ensures(
                        run,
                        (&self.tool_router.handlers()[at], &args),
                        result,
                    ) && outcome@ == concluded(result_text(result)),
            },
            !has_tool(self.tool_router.descriptors(), name@) ==> outcome@ == unknown_tool(name@),
    {
        dispatch(&self.tool_router, run, name, raw)
    }
}

impl UsbServer {
    /// The report on the given devices.
    pub fn get_usb_devices(&self, devices: &Vec<UsbDevice>) -> (report: String)
        ensures
            report@ == usb_report(devices@),
    {
        build_usb_report(devices)
    }
}

} // verus!
