//! The battery report.

use vstd::prelude::*;
use vstd::string::*;
use crate::catalog::{registry_of, tool_descriptors, Tool};
use crate::dispatch::{concluded, dispatch, planned, result_text, unknown_tool, PlanView, ToolOutcome};
use crate::registry::{has_tool, tool_names_distinct, Registry, ToolDescriptor};
use crate::schema::{Arguments, RawArguments};
use crate::text::{concat_all, decimal, lemma_concat_all_push, option_text, optional_line, push_decimal, push_optional_line};

verus! {

/// What a battery is doing.
#[derive(Clone, Copy, PartialEq, Eq, Debug, Structural)]
pub enum BatteryState {
    Charging,
    Discharging,
    Empty,
    Full,
    Unknown,
}

/// One battery, its measurements already rendered as numerals.
#[derive(Clone, Debug, PartialEq, Eq)]
pub struct BatteryReading {
    /// State of charge in percent.
    pub charge: String,
    pub state: BatteryState,
    /// Energy held, in watt hours.
    pub energy: String,
    /// Energy held when full, in watt hours.
    pub energy_full: String,
    /// Minutes until full, while charging.
    pub time_to_full: Option<String>,
    /// Minutes until empty, while discharging.
    pub time_to_empty: Option<String>,
    /// State of health in percent.
    pub health: String,
    /// Temperature in degrees Celsius.
    pub temperature: Option<String>,
}

/// The word for a battery state.
pub open spec fn state_text(state: BatteryState) -> Seq<char> {
    match state {
        BatteryState::Charging => "Charging"@,
        BatteryState::Discharging => "Discharging"@,
        BatteryState::Empty => "Empty"@,
        BatteryState::Full => "Full"@,
        BatteryState::Unknown => "Unknown"@,
    }
}

/// The lines of charge, state and energy of the battery at position `i`
/// (counted from zero, shown from one).
pub open spec fn charge_lines(i: int, b: BatteryReading) -> Seq<char> {
    "Battery "@ + decimal((i + 1) as nat) + ":\n  Charge: "@ + b.charge@ + "%\n  State: "@
        + state_text(b.state) + "\n  Energy: "@ + b.energy@ + " / "@ + b.energy_full@ + " Wh\n"@
}

/// The lines of the times to full and to empty, as far as they are known.
pub open spec fn time_lines(b: BatteryReading) -> Seq<char> {
    optional_line("  Time to full: "@, option_text(b.time_to_full), " minutes\n"@) + optional_line(
        "  Time to empty: "@,
        option_text(b.time_to_empty),
        " minutes\n"@,
    )
}

/// The lines of health and temperature.
pub open spec fn health_lines(b: BatteryReading) -> Seq<char> {
    "  Health: "@ + b.health@ + "%\n"@ + optional_line(
        "  Temperature: "@,
        option_text(b.temperature),
        "°C\n"@,
    )
}

/// The block of the battery at position `i`.
pub open spec fn battery_section(i: int, b: BatteryReading) -> Seq<char> {
    charge_lines(i, b) + time_lines(b) + health_lines(b) + "\n"@
}

/// The blocks of the first `n` batteries.
pub open spec fn battery_sections(batteries: Seq<BatteryReading>, n: int) -> Seq<char> {
    concat_all(Seq::new(n as nat, |i: int| battery_section(i, batteries[i])))
}

/// The battery report: a note when there is no battery; else a block for
/// each and their number.
pub open spec fn battery_report(batteries: Seq<BatteryReading>) -> Seq<char> {
    if batteries.len() == 0 {
        "Battery Status:\n\nNo batteries detected.\n(This is normal for desktop computers without UPS)\n"@
    } else {
        "Battery Status:\n\n"@ + battery_sections(batteries, batteries.len() as int)
            + "Total batteries: "@ + decimal(batteries.len()) + "\n"@
    }
}

fn push_charge_lines(out: &mut String, i: usize, b: &BatteryReading)
    requires
        i < usize::MAX,
    ensures
        final(out)@ == old(out)@ + charge_lines(i as int, *b),
{
    let ghost before = out@;
    out.append("Battery ");
    push_decimal(out, (i + 1) as u64);
    out.append(":\n  Charge: ");
    out.append(b.charge.as_str());
    out.append("%\n  State: ");
    out.append(BatteryServer::state_to_string(b.state));
    out.append("\n  Energy: ");
    out.append(b.energy.as_str());
    out.append(" / ");
    out.append(b.energy_full.as_str());
    out.append(" Wh\n");
    assert(out@ =~= before + charge_lines(i as int, *b));
}

fn push_time_lines(out: &mut String, b: &BatteryReading)
    ensures
        final(out)@ == old(out)@ + time_lines(*b),
{
    let ghost before = out@;
    push_optional_line(out, "  Time to full: ", &b.time_to_full, " minutes\n");
    push_optional_line(out, "  Time to empty: ", &b.time_to_empty, " minutes\n");
    assert(out@ =~= before + time_lines(*b));
}

fn push_health_lines(out: &mut String, b: &BatteryReading)
    ensures
        final(out)@ == old(out)@ + health_lines(*b),
{
    let ghost before = out@;
    out.append("  Health: ");
    out.append(b.health.as_str());
    out.append("%\n");
    push_optional_line(out, "  Temperature: ", &b.temperature, "°C\n");
    assert(out@ =~= before + health_lines(*b));
}

fn push_battery_section(out: &mut String, i: usize, b: &BatteryReading)
    requires
        i < usize::MAX,
    ensures
        final(out)@ == old(out)@ + battery_section(i as int, *b),
{
    let ghost before = out@;
    push_charge_lines(out, i, b);
    push_time_lines(out, b);
    push_health_lines(out, b);
    out.append("\n");
    assert(out@ =~= before + battery_section(i as int, *b));
}

/// The report on the given batteries.
pub fn build_battery_report(batteries: &Vec<BatteryReading>) -> (report: String)
    ensures
        report@ == battery_report(batteries@),
{
    if batteries.len() == 0 {
        return String::from_str(
            "Battery Status:\n\nNo batteries detected.\n(This is normal for desktop computers without UPS)\n",
        );
    }
    let mut out = String::from_str("Battery Status:\n\n");
    let ghost before = out@;
    let ghost section = |i: int| battery_section(i, batteries@[i]);
    let mut i: usize = 0;
    assert(Seq::new(0, section) =~= Seq::<Seq<char>>::empty());
    assert(out@ =~= before + battery_sections(batteries@, 0));
    while i < batteries.len()
        invariant
            i <= batteries.len(),
            section == |i: int| battery_section(i, batteries@[i]),
            out@ == before + battery_sections(batteries@, i as int),
        decreases batteries.len() - i,
    {
        push_battery_section(&mut out, i, &batteries[i]);
        proof {
            let done = Seq::new(i as nat, section);
            assert(Seq::new((i + 1) as nat, section) =~= done.push(section(i as int)));
            lemma_concat_all_push(done, section(i as int));
            assert(out@ =~= before + battery_sections(batteries@, i + 1));
        }
        i += 1;
    }
    out.append("Total batteries: ");
    push_decimal(&mut out, batteries.len() as u64);
    out.append("\n");
    assert(out@ =~= battery_report(batteries@));
    out
}

/// The tools of the battery server, in the order in which it lists them.
pub open spec fn battery_tools() -> Seq<Tool> {
    seq![Tool::BatteryStatus]
}

/// The server of the battery tool.
#[derive(Debug)]
pub struct BatteryServer {
    /// The tools of this server.
    pub tool_router: Registry<Tool>,
}

impl Default for BatteryServer {
    fn default() -> (server: BatteryServer)
        ensures
            server.tool_router.handlers() == battery_tools(),
            server.tool_router.descriptors() == tool_descriptors(battery_tools()),
    {
        BatteryServer::new()
    }
}

impl BatteryServer {
    /// The server with its tools registered.
    pub fn new() -> (server: BatteryServer)
        ensures
            server.tool_router.handlers() == battery_tools(),
            server.tool_router.descriptors() == tool_descriptors(battery_tools()),
    {
        let tools = vec![Tool::BatteryStatus];
        assert(tools@ =~= battery_tools());
        BatteryServer { tool_router: registry_of(&tools).unwrap() }
    }

    /// What the server says of itself.
    pub fn instructions(&self) -> (text: &'static str)
        ensures
            text@ == "Cross-platform battery/power status server"@,
    {
        "Cross-platform battery/power status server"
    }

    /// The descriptors of the server's tools, in order.
    pub fn list_tools(&self) -> (listed: Vec<&ToolDescriptor>)
        ensures
            listed@.len() == self.tool_router.descriptors().len(),
            forall|i: int|
                0 <= i < listed@.len() ==> (#[trigger] listed@[i])@
                    == self.tool_router.descriptors()[i],
            tool_names_distinct(self.tool_router.descriptors()),
    {
        self.tool_router.list()
    }

    /// Handles a call of one of the server's tools by name, running the
    /// tool through `run`.
    pub fn call_tool<F>(&self, run: &F, name: &str, raw: &RawArguments) -> (outcome: ToolOutcome) where
        F: Fn(&Tool, &Arguments) -> Result<String, String>,

        requires
            forall|tool: &Tool, args: &Arguments|
                self.tool_router.handlers().contains(*tool) ==> call_requires(run, (tool, args)),
        ensures
            match planned(self.tool_router.descriptors(), name@, raw@) {
                PlanView::Reject(rejection) => outcome@ == rejection,
                PlanView::Invoke(at, typed) => exists|args: Arguments, result: Result<String, String>|
                    args@ == typed && call_ensures(
                        run,
                        (&self.tool_router.handlers()[at], &args),
                        result,
                    ) && outcome@ == concluded(result_text(result)),
            },
            !has_tool(self.tool_router.descriptors(), name@) ==> outcome@ == unknown_tool(name@),
    {
        dispatch(&self.tool_router, run, name, raw)
    }
}

impl BatteryServer {
    /// The word for a battery state.
    pub fn state_to_string(state: BatteryState) -> (word: &'static str)
        ensures
            word@ == state_text(state),
    {
        match state {
            BatteryState::Charging => "Charging",
            BatteryState::Discharging => "Discharging",
            BatteryState::Empty => "Empty",
            BatteryState::Full => "Full",
            BatteryState::Unknown => "Unknown",
        }
    }

    /// The report on the given batteries.
    pub fn get_battery_status(&self, batteries: &Vec<BatteryReading>) -> (report: String)
        ensures
            report@ == battery_report(batteries@),
    {
        build_battery_report(batteries)
    }
}

} // verus!
