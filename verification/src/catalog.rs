//! The tools that this crate knows: their names, what they do, and what
//! parameters they take.

use vstd::prelude::*;
use vstd::string::*;
use crate::git::{repo_path_schema, RepoPathParams};
use crate::idle::{idle_threshold_schema, IdleThresholdParams};
use crate::registry::{DescriptorView, Registry, RegistryError, ToolDescriptor};
use crate::schema::{FieldView, Schema};
use crate::sysinfo::{find_process_schema, process_id_schema, top_processes_schema, FindProcessParams, ProcessIdParams, TopProcessesParams};
use crate::weather::{forecast_schema, location_schema, ForecastParams, LocationParams};

verus! {

/// The tools, each a query of the host it runs on.
#[derive(Clone, Copy, PartialEq, Eq, Debug, Structural)]
pub enum Tool {
    DisplayInfo,
    IdleTime,
    IsIdleFor,
    Interfaces,
    UsbDevices,
    BatteryStatus,
    ScanBle,
    GitStatus,
    GitLog,
    SystemInfo,
    DiskInfo,
    TopProcesses,
    FindProcess,
    ProcessDetails,
    ListProcesses,
    Weather,
    Forecast,
}

/// The name under which a tool is called.
pub open spec fn tool_name(tool: Tool) -> Seq<char> {
    match tool {
        Tool::DisplayInfo => "get_display_info"@,
        Tool::IdleTime => "get_idle_time"@,
        Tool::IsIdleFor => "is_idle_for"@,
        Tool::Interfaces => "get_interfaces"@,
        Tool::UsbDevices => "get_usb_devices"@,
        Tool::BatteryStatus => "get_battery_status"@,
        Tool::ScanBle => "scan_ble_devices"@,
        Tool::GitStatus => "get_status"@,
        Tool::GitLog => "get_log"@,
        Tool::SystemInfo => "get_system_info"@,
        Tool::DiskInfo => "get_disk_info"@,
        Tool::TopProcesses => "get_top_processes"@,
        Tool::FindProcess => "find_process"@,
        Tool::ProcessDetails => "get_process_details"@,
        Tool::ListProcesses => "list_processes"@,
        Tool::Weather => "get_weather"@,
        Tool::Forecast => "get_forecast"@,
    }
}

/// What a tool does, in words.
pub open spec fn tool_description(tool: Tool) -> Seq<char> {
    match tool {
        Tool::DisplayInfo => "Get display/monitor information (connected displays, resolutions, physical sizes)"@,
        Tool::IdleTime => "Get user idle time (how long since last keyboard/mouse input)"@,
        Tool::IsIdleFor => "Check if user has been idle longer than specified seconds"@,
        Tool::Interfaces => "List all network interfaces with their IP addresses and MAC addresses"@,
        Tool::UsbDevices => "List all connected USB devices with vendor/product info"@,
        Tool::BatteryStatus => "Get battery/power status (charge level, charging state, time remaining)"@,
        Tool::ScanBle => "Scan for nearby Bluetooth Low Energy (BLE) devices"@,
        Tool::GitStatus => "Get git repository status (branch, uncommitted changes, last commit)"@,
        Tool::GitLog => "Get recent git commits (last 10)"@,
        Tool::SystemInfo => "Get system overview: CPU usage, memory, disk space, uptime"@,
        Tool::DiskInfo => "Get detailed disk usage for all mounted filesystems"@,
        Tool::TopProcesses => "Get top processes by CPU or memory usage"@,
        Tool::FindProcess => "Find processes by name (case-insensitive, partial match)"@,
        Tool::ProcessDetails => "Get detailed information about a specific process by PID"@,
        Tool::ListProcesses => "List all running processes (sorted by CPU usage)"@,
        Tool::Weather => "Get current weather conditions for a location"@,
        Tool::Forecast => "Get weather forecast for upcoming days"@,
    }
}

/// The parameters that a tool takes.
pub open spec fn tool_schema(tool: Tool) -> Seq<FieldView> {
    match tool {
        Tool::IsIdleFor => idle_threshold_schema(),
        Tool::GitStatus => repo_path_schema(),
        Tool::GitLog => repo_path_schema(),
        Tool::TopProcesses => top_processes_schema(),
        Tool::FindProcess => find_process_schema(),
        Tool::ProcessDetails => process_id_schema(),
        Tool::Weather => location_schema(),
        Tool::Forecast => forecast_schema(),
        _ => Seq::empty(),
    }
}

/// What a caller may know of a tool.
pub open spec fn tool_descriptor(tool: Tool) -> DescriptorView {
    DescriptorView {
        name: tool_name(tool),
        description: tool_description(tool),
        schema: tool_schema(tool),
    }
}

/// The descriptors of the given tools, in order.
pub open spec fn tool_descriptors(tools: Seq<Tool>) -> Seq<DescriptorView> {
    tools.map_values(|t: Tool| tool_descriptor(t))
}

spec fn signature(name: Seq<char>) -> (nat, char, char) {
    (name.len(), name[0], name[4])
}

/// Different tools have different names.
pub proof fn lemma_tool_names_differ(a: Tool, b: Tool)
    requires
        a != b,
    ensures
        tool_name(a) != tool_name(b),
{
    reveal_strlit("get_display_info");
    reveal_strlit("get_idle_time");
    reveal_strlit("is_idle_for");
    reveal_strlit("get_interfaces");
    reveal_strlit("get_usb_devices");
    reveal_strlit("get_battery_status");
    reveal_strlit("scan_ble_devices");
    reveal_strlit("get_status");
    reveal_strlit("get_log");
    reveal_strlit("get_system_info");
    reveal_strlit("get_disk_info");
    reveal_strlit("get_top_processes");
    reveal_strlit("find_process");
    reveal_strlit("get_process_details");
    reveal_strlit("list_processes");
    reveal_strlit("get_weather");
    reveal_strlit("get_forecast");
    assert(signature(tool_name(a)) != signature(tool_name(b)));
}

impl Tool {
    /// The name under which the tool is called.
    pub fn name(self) -> (name: &'static str)
        ensures
            name@ == tool_name(self),
    {
        match self {
            Tool::DisplayInfo => "get_display_info",
            Tool::IdleTime => "get_idle_time",
            Tool::IsIdleFor => "is_idle_for",
            Tool::Interfaces => "get_interfaces",
            Tool::UsbDevices => "get_usb_devices",
            Tool::BatteryStatus => "get_battery_status",
            Tool::ScanBle => "scan_ble_devices",
            Tool::GitStatus => "get_status",
            Tool::GitLog => "get_log",
            Tool::SystemInfo => "get_system_info",
            Tool::DiskInfo => "get_disk_info",
            Tool::TopProcesses => "get_top_processes",
            Tool::FindProcess => "find_process",
            Tool::ProcessDetails => "get_process_details",
            Tool::ListProcesses => "list_processes",
            Tool::Weather => "get_weather",
            Tool::Forecast => "get_forecast",
        }
    }

    /// What the tool does, in words. No description is empty.
    pub fn description(self) -> (description: &'static str)
        ensures
            description@ == tool_description(self),
            description@.len() > 0,
    {
        proof {
            reveal_strlit("Get display/monitor information (connected displays, resolutions, physical sizes)");
            reveal_strlit("Get user idle time (how long since last keyboard/mouse input)");
            reveal_strlit("Check if user has been idle longer than specified seconds");
            reveal_strlit("List all network interfaces with their IP addresses and MAC addresses");
            reveal_strlit("List all connected USB devices with vendor/product info");
            reveal_strlit("Get battery/power status (charge level, charging state, time remaining)");
            reveal_strlit("Scan for nearby Bluetooth Low Energy (BLE) devices");
            reveal_strlit("Get git repository status (branch, uncommitted changes, last commit)");
            reveal_strlit("Get recent git commits (last 10)");
            reveal_strlit("Get system overview: CPU usage, memory, disk space, uptime");
            reveal_strlit("Get detailed disk usage for all mounted filesystems");
            reveal_strlit("Get top processes by CPU or memory usage");
            reveal_strlit("Find processes by name (case-insensitive, partial match)");
            reveal_strlit("Get detailed information about a specific process by PID");
            reveal_strlit("List all running processes (sorted by CPU usage)");
            reveal_strlit("Get current weather conditions for a location");
            reveal_strlit("Get weather forecast for upcoming days");
        }
        match self {
            Tool::DisplayInfo => "Get display/monitor information (connected displays, resolutions, physical sizes)",
            Tool::IdleTime => "Get user idle time (how long since last keyboard/mouse input)",
            Tool::IsIdleFor => "Check if user has been idle longer than specified seconds",
            Tool::Interfaces => "List all network interfaces with their IP addresses and MAC addresses",
            Tool::UsbDevices => "List all connected USB devices with vendor/product info",
            Tool::BatteryStatus => "Get battery/power status (charge level, charging state, time remaining)",
            Tool::ScanBle => "Scan for nearby Bluetooth Low Energy (BLE) devices",
            Tool::GitStatus => "Get git repository status (branch, uncommitted changes, last commit)",
            Tool::GitLog => "Get recent git commits (last 10)",
            Tool::SystemInfo => "Get system overview: CPU usage, memory, disk space, uptime",
            Tool::DiskInfo => "Get detailed disk usage for all mounted filesystems",
            Tool::TopProcesses => "Get top processes by CPU or memory usage",
            Tool::FindProcess => "Find processes by name (case-insensitive, partial match)",
            Tool::ProcessDetails => "Get detailed information about a specific process by PID",
            Tool::ListProcesses => "List all running processes (sorted by CPU usage)",
            Tool::Weather => "Get current weather conditions for a location",
            Tool::Forecast => "Get weather forecast for upcoming days",
        }
    }

    /// The parameters that the tool takes.
    pub fn schema(self) -> (schema: Schema)
        ensures
            schema@ == tool_schema(self),
    {
        match self {
            Tool::IsIdleFor => IdleThresholdParams::schema(),
            Tool::GitStatus => RepoPathParams::schema(),
            Tool::GitLog => RepoPathParams::schema(),
            Tool::TopProcesses => TopProcessesParams::schema(),
            Tool::FindProcess => FindProcessParams::schema(),
            Tool::ProcessDetails => ProcessIdParams::schema(),
            Tool::Weather => LocationParams::schema(),
            Tool::Forecast => ForecastParams::schema(),
            _ => Schema::new(),
        }
    }

    /// What a caller may know of the tool.
    pub fn descriptor(self) -> (descriptor: ToolDescriptor)
        ensures
            descriptor@ == tool_descriptor(self),
    {
        ToolDescriptor::new(
            String::from_str(self.name()),
            String::from_str(self.description()),
            self.schema(),
        ).unwrap()
    }
}

/// The registry of the given tools, each under its own name and with
/// itself as its handler, in the order given. A tool that is listed twice
/// is refused.
pub fn registry_of(tools: &Vec<Tool>) -> (made: Result<Registry<Tool>, RegistryError>)
    ensures
        match made {
            Ok(registry) => tools@.no_duplicates() && registry.handlers() == tools@
                && registry.descriptors() == tool_descriptors(tools@),
            Err(RegistryError::DuplicateName(name)) => exists|i: int, j: int|
                0 <= i < j < tools@.len() && tools@[i] == tools@[j] && name@ == tool_name(tools@[j]),
            Err(RegistryError::NotFound(_)) => false,
        },
{
    let mut registry: Registry<Tool> = Registry::new();
    let mut i: usize = 0;
    assert(tools@.take(0) =~= Seq::<Tool>::empty());
    assert(tool_descriptors(tools@.take(0)) =~= Seq::<DescriptorView>::empty());
    while i < tools.len()
        invariant
            i <= tools.len(),
            tools@.take(i as int).no_duplicates(),
            registry.handlers() == tools@.take(i as int),
            registry.descriptors() == tool_descriptors(tools@.take(i as int)),
        decreases tools.len() - i,
    {
        let tool = tools[i];
        let ghost before = registry.descriptors();
        let done = registry.register(tool.descriptor(), tool);
        match done {
            Ok(()) => {
                proof {
                    let next = tools@.take(i + 1);
                    assert(next =~= tools@.take(i as int).push(tool));
                    assert(tool_descriptors(next) =~= before.push(tool_descriptor(tool)));
                    assert forall|a: int, b: int| 0 <= a < next.len() && 0 <= b < next.len() && a
                        != b implies next[a] != next[b] by {
                        if a == i as int {
                            assert(before[b] == tool_descriptor(next[b]));
                        } else if b == i as int {
                            assert(before[a] == tool_descriptor(next[a]));
                        }
                    }
                }
            },
            Err(e) => {
                proof {
                    let k = choose|k: int|
                        0 <= k < before.len() && (#[trigger] before[k]).name == tool_name(tool);
                    assert(before[k] == tool_descriptor(tools@.take(i as int)[k]));
                    if tools@[k] != tool {
                        lemma_tool_names_differ(tools@[k], tool);
                    }
                    assert(tools@[k] == tools@[i as int]);
                }
                return Err(e);
            },
        }
        i += 1;
    }
    assert(tools@.take(tools.len() as int) =~= tools@);
    Ok(registry)
}

} // verus!
