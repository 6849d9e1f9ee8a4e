//! The server that offers the tools of all domains at once.

use vstd::prelude::*;
use vstd::string::*;
use crate::battery::{battery_report, build_battery_report, state_text, BatteryReading, BatteryServer, BatteryState};
use crate::bluetooth::{build_scan_report, scan_report, AdapterScan};
use crate::catalog::{registry_of, tool_descriptors, Tool};
use crate::dispatch::{concluded, dispatch, planned, result_text, unknown_tool, PlanView, ToolOutcome};
use crate::display::{display_report, format_displays, DisplayEntry};
use crate::git::{build_log_report, build_status_report, log_report, status_report, CommitInfo, RepoSnapshot};
use crate::idle::{build_idle_check_report, build_idle_report, idle_check_report, idle_report, IdleThresholdParams};
use crate::network::{interfaces_report, InterfaceInfo, NetworkServer};
use crate::process::ProcessEntry;
use crate::registry::{has_tool, tool_names_distinct, Registry, ToolDescriptor};
use crate::schema::{Arguments, RawArguments};
use crate::sysinfo::{build_disk_report, build_system_report, build_top_report, disk_report, system_report, top_report, DiskInfo, SystemSnapshot, TopProcessesParams};
use crate::units::{bytes_text, duration_text};
use crate::usb::{build_usb_report, usb_report, UsbDevice};
use crate::weather::{build_forecast_report, build_weather_report, forecast_report, weather_outcome, ForecastParams, LocationParams, WttrResponse};

verus! {

/// The tools of the combined server, in the order in which it lists them.
pub open spec fn sensors_tools() -> Seq<Tool> {
    seq![
        Tool::DisplayInfo,
        Tool::IdleTime,
        Tool::IsIdleFor,
        Tool::Interfaces,
        Tool::UsbDevices,
        Tool::BatteryStatus,
        Tool::ScanBle,
        Tool::GitStatus,
        Tool::GitLog,
        Tool::SystemInfo,
        Tool::DiskInfo,
        Tool::TopProcesses,
        Tool::Weather,
        Tool::Forecast,
    ]
}

/// The server of the tools of all domains.
#[derive(Debug)]
pub struct SensorsServer {
    /// The tools of this server.
    pub tool_router: Registry<Tool>,
}

impl Default for SensorsServer {
    fn default() -> (server: SensorsServer)
        ensures
            server.tool_router.handlers() == sensors_tools(),
            server.tool_router.descriptors() == tool_descriptors(sensors_tools()),
    {
        SensorsServer::new()
    }
}

impl SensorsServer {
    /// The server with its tools registered.
    pub fn new() -> (server: SensorsServer)
        ensures
            server.tool_router.handlers() == sensors_tools(),
            server.tool_router.descriptors() == tool_descriptors(sensors_tools()),
    {
        let tools = vec![
            Tool::DisplayInfo,
            Tool::IdleTime,
            Tool::IsIdleFor,
            Tool::Interfaces,
            Tool::UsbDevices,
            Tool::BatteryStatus,
            Tool::ScanBle,
            Tool::GitStatus,
            Tool::GitLog,
            Tool::SystemInfo,
            Tool::DiskInfo,
            Tool::TopProcesses,
            Tool::Weather,
            Tool::Forecast,
        ];
        assert(tools@ =~= sensors_tools());
        SensorsServer { tool_router: registry_of(&tools).unwrap() }
    }

    /// What the server says of itself.
    pub fn instructions(&self) -> (text: &'static str)
        ensures
            text@
                == "Sensors - Cross-platform environmental awareness. Provides display, idle, network, USB, battery, bluetooth, git, system, and weather information."@,
    {
        "Sensors - Cross-platform environmental awareness. Provides display, idle, network, USB, battery, bluetooth, git, system, and weather information."
    }

    /// The descriptors of the server's tools, in order.
    pub fn list_tools(&self) -> (listed: Vec<&ToolDescriptor>)
        ensures
            listed@.len() == self.tool_router.descriptors().len(),
            forall|i: int|
                0 <= i < listed@.len() ==> (#[trigger] listed@[i])@
                    == self.tool_router.descriptors()[i],
            tool_names_distinct(self.tool_router.descriptors()),
    {
        self.tool_router.list()
    }

    /// Handles a call of one of the server's tools by name, running the
    /// tool through `run`.
    pub fn call_tool<F>(&self, run: &F, name: &str, raw: &RawArguments) -> (outcome: ToolOutcome) where
        F: Fn(&Tool, &Arguments) -> Result<String, String>,

        requires
            forall|tool: &Tool, args: &Arguments|
                self.tool_router.handlers().contains(*tool) ==> call_requires(run, (tool, args)),
        ensures
            match planned(self.tool_router.descriptors(), name@, raw@) {
                PlanView::Reject(rejection) => outcome@ == rejection,
                PlanView::Invoke(at, typed) => exists|args: Arguments, result: Result<String, String>|
                    args@ == typed && call_ensures(
                        run,
                        (&self.tool_router.handlers()[at], &args),
                        result,
                    ) && outcome@ == concluded(result_text(result)),
            },
            !has_tool(self.tool_router.descriptors(), name@) ==> outcome@ == unknown_tool(name@),
    {
        dispatch(&self.tool_router, run, name, raw)
    }

    /// A duration in its two largest units.
    pub fn format_duration(seconds: u64) -> (out: String)
        ensures
            out@ == duration_text(seconds as nat),
    {
        crate::units::format_duration(seconds)
    }

    /// A byte count in the largest binary unit that it reaches.
    pub fn format_bytes(bytes: u64) -> (out: String)
        ensures
            out@ == bytes_text(bytes as nat),
    {
        crate::units::format_bytes(bytes)
    }

    /// The word for a battery state.
    pub fn battery_state_to_string(state: BatteryState) -> (word: &'static str)
        ensures
            word@ == state_text(state),
    {
        BatteryServer::state_to_string(state)
    }

    /// The report on the given displays. Rotations are not shown.
    pub fn get_display_info(&self, displays: &Vec<DisplayEntry>) -> (report: String)
        ensures
            report@ == display_report(displays@, false),
    {
        format_displays(displays, false)
    }

    /// The report of an idle time given in seconds.
    pub fn get_idle_time(&self, seconds: u64) -> (report: String)
        ensures
            report@ == idle_report(seconds as nat),
    {
        build_idle_report(seconds)
    }

    /// The report of whether an idle time given in seconds reaches the
    /// threshold asked for.
    pub fn is_idle_for(&self, params: &IdleThresholdParams, seconds: u64) -> (report: String)
        ensures
            report@ == idle_check_report(seconds as nat, params.threshold_seconds as nat),
    {
        build_idle_check_report(params, seconds)
    }

    /// The report on the given interfaces.
    pub fn get_interfaces(&self, interfaces: &Vec<InterfaceInfo>) -> (report: String)
        ensures
            report@ == interfaces_report(interfaces@),
    {
        NetworkServer::format_interfaces(interfaces)
    }

    /// The report on the given USB devices.
    pub fn get_usb_devices(&self, devices: &Vec<UsbDevice>) -> (report: String)
        ensures
            report@ == usb_report(devices@),
    {
        build_usb_report(devices)
    }

    /// The report on the given batteries.
    pub fn get_battery_status(&self, batteries: &Vec<BatteryReading>) -> (report: String)
        ensures
            report@ == battery_report(batteries@),
    {
        build_battery_report(batteries)
    }

    /// The report of a finished Bluetooth scan.
    pub fn scan_ble_devices(&self, adapters: &Vec<AdapterScan>) -> (report: Result<String, String>)
        ensures
            match scan_report(adapters@) {
                Ok(text) => report is Ok && report->Ok_0@ == text,
                Err(reason) => report is Err && report->Err_0@ == reason,
            },
    {
        build_scan_report(adapters)
    }

    /// The status report of a repository.
    pub fn get_status(&self, repo: &RepoSnapshot) -> (report: String)
        ensures
            report@ == status_report(*repo),
    {
        build_status_report(repo)
    }

    /// The short log of the given commits.
    pub fn get_log(&self, commits: &Vec<CommitInfo>) -> (report: String)
        ensures
            report@ == log_report(commits@),
    {
        build_log_report(commits)
    }

    /// The overview of the system.
    pub fn get_system_info(&self, sys: &SystemSnapshot) -> (report: String)
        ensures
            report@ == system_report(*sys),
    {
        build_system_report(sys)
    }

    /// The usage of every mounted filesystem.
    pub fn get_disk_info(&self, disks: &Vec<DiskInfo>) -> (report: String)
        ensures
            report@ == disk_report(disks@),
    {
        build_disk_report(disks)
    }

    /// The busiest processes by CPU usage or memory.
    pub fn get_top_processes(&self, params: &TopProcessesParams, entries: Vec<ProcessEntry>) -> (report:
        String)
        ensures
            report@ == top_report(entries@, *params),
    {
        build_top_report(params, entries)
    }

    /// The report of the current conditions at a location.
    pub fn get_weather(&self, params: &LocationParams, data: &WttrResponse) -> (report: Result<
        String,
        String,
    >)
        ensures
            match weather_outcome(*data, params.location@) {
                Ok(text) => report is Ok && report->Ok_0@ == text,
                Err(reason) => report is Err && report->Err_0@ == reason,
            },
    {
        build_weather_report(params, data)
    }

    /// The forecast for the coming days at a location.
    pub fn get_forecast(&self, params: &ForecastParams, data: &WttrResponse) -> (report: String)
        ensures
            report@ == forecast_report(*data, params.location@, params.days),
    {
        build_forecast_report(params, data)
    }
}

} // verus!
