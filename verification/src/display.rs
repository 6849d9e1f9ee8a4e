//! The report on displays.

use vstd::prelude::*;
use vstd::string::*;
use crate::catalog::{registry_of, tool_descriptors, Tool};
use crate::dispatch::{concluded, dispatch, planned, result_text, unknown_tool, PlanView, ToolOutcome};
use crate::registry::{has_tool, tool_names_distinct, Registry, ToolDescriptor};
use crate::schema::{Arguments, RawArguments};
use crate::text::{concat_all, decimal, lemma_concat_all_push, option_text, optional_line, push_decimal, push_optional_line, push_signed_decimal, signed_decimal};

verus! {

/// One display. Measurements that are fractions come rendered as numerals,
/// and are absent where they have nothing to say.
#[derive(Clone, Debug, PartialEq, Eq)]
pub struct DisplayEntry {
    pub name: String,
    pub friendly_name: String,
    pub is_primary: bool,
    /// Width in pixels.
    pub width: u32,
    /// Height in pixels.
    pub height: u32,
    pub x: i32,
    pub y: i32,
    /// Width in millimetres; zero when unknown.
    pub width_mm: i32,
    /// Height in millimetres; zero when unknown.
    pub height_mm: i32,
    /// The diagonal in inches, with one decimal place.
    pub diagonal_inches: String,
    /// The refresh rate in hertz, rounded; present when it is positive.
    pub refresh: Option<String>,
    /// The scale in percent, rounded; present when it is not 100%.
    pub scale: Option<String>,
    /// The rotation in whole degrees; present when the display is rotated.
    pub rotation: Option<i32>,
}

/// The name under which a display is listed: the friendly one if it has one.
pub open spec fn shown_name(d: DisplayEntry) -> Seq<char> {
    if d.friendly_name@.len() == 0 {
        d.name@
    } else {
        d.friendly_name@
    }
}

/// The line of the physical size; nothing unless both sides are known.
pub open spec fn physical_line(d: DisplayEntry) -> Seq<char> {
    if d.width_mm > 0 && d.height_mm > 0 {
        "  Physical: "@ + signed_decimal(d.width_mm as int) + "mm x "@ + signed_decimal(
            d.height_mm as int,
        ) + "mm (~"@ + d.diagonal_inches@ + "\")\n"@
    } else {
        Seq::empty()
    }
}

/// The line of the rotation, where rotations are shown and there is one.
pub open spec fn rotation_line(d: DisplayEntry, with_rotation: bool) -> Seq<char> {
    match d.rotation {
        Some(r) => if with_rotation {
            "  Rotation: "@ + signed_decimal(r as int) + "°\n"@
        } else {
            Seq::empty()
        },
        None => Seq::empty(),
    }
}

/// The heading of the display at position `i` (counted from zero, shown
/// from one).
pub open spec fn title_line(i: int, d: DisplayEntry) -> Seq<char> {
    "Display "@ + decimal((i + 1) as nat) + ": "@ + shown_name(d) + (if d.is_primary {
        " (primary)"@
    } else {
        Seq::empty()
    }) + "\n"@
}

/// The lines of the resolution and the position.
pub open spec fn geometry_lines(d: DisplayEntry) -> Seq<char> {
    "  Resolution: "@ + decimal(d.width as nat) + "x"@ + decimal(d.height as nat)
        + "\n  Position: ("@ + signed_decimal(d.x as int) + ", "@ + signed_decimal(d.y as int)
        + ")\n"@
}

/// The lines that are only there for what is known or unusual: physical
/// size, refresh rate, scale, rotation.
pub open spec fn extra_lines(d: DisplayEntry, with_rotation: bool) -> Seq<char> {
    physical_line(d) + optional_line("  Refresh: "@, option_text(d.refresh), "Hz\n"@)
        + optional_line("  Scale: "@, option_text(d.scale), "%\n"@) + rotation_line(d, with_rotation)
}

/// The block of the display at position `i`.
pub open spec fn display_section(i: int, d: DisplayEntry, with_rotation: bool) -> Seq<char> {
    title_line(i, d) + geometry_lines(d) + extra_lines(d, with_rotation) + "\n"@
}

/// The blocks of the first `n` displays.
pub open spec fn display_sections(displays: Seq<DisplayEntry>, n: int, with_rotation: bool) -> Seq<
    char,
> {
    concat_all(Seq::new(n as nat, |i: int| display_section(i, displays[i], with_rotation)))
}

/// The report: a note when there is no display; else a block for each and
/// their number.
pub open spec fn display_report(displays: Seq<DisplayEntry>, with_rotation: bool) -> Seq<char> {
    if displays.len() == 0 {
        "Display Information:\n\nNo displays detected.\n"@
    } else {
        "Display Information:\n\n"@ + display_sections(
            displays,
            displays.len() as int,
            with_rotation,
        ) + "Total displays: "@ + decimal(displays.len()) + "\n"@
    }
}

fn push_physical_line(out: &mut String, d: &DisplayEntry)
    ensures
        final(out)@ == old(out)@ + physical_line(*d),
{
    let ghost before = out@;
    if d.width_mm > 0 && d.height_mm > 0 {
        out.append("  Physical: ");
        push_signed_decimal(out, d.width_mm as i64);
        out.append("mm x ");
        push_signed_decimal(out, d.height_mm as i64);
        out.append("mm (~");
        out.append(d.diagonal_inches.as_str());
        out.append("\")\n");
    }
    assert(out@ =~= before + physical_line(*d));
}

fn push_rotation_line(out: &mut String, d: &DisplayEntry, with_rotation: bool)
    ensures
        final(out)@ == old(out)@ + rotation_line(*d, with_rotation),
{
    let ghost before = out@;
    match d.rotation {
        Some(r) => {
            if with_rotation {
                out.append("  Rotation: ");
                push_signed_decimal(out, r as i64);
                out.append("°\n");
            }
        },
        None => {},
    }
    assert(out@ =~= before + rotation_line(*d, with_rotation));
}

fn push_title_line(out: &mut String, i: usize, d: &DisplayEntry)
    requires
        i < usize::MAX,
    ensures
        final(out)@ == old(out)@ + title_line(i as int, *d),
{
    let ghost before = out@;
    out.append("Display ");
    push_decimal(out, (i + 1) as u64);
    out.append(": ");
    if d.friendly_name.as_str().is_empty() {
        out.append(d.name.as_str());
    } else {
        out.append(d.friendly_name.as_str());
    }
    if d.is_primary {
        out.append(" (primary)");
    }
    out.append("\n");
    assert(out@ =~= before + title_line(i as int, *d));
}

fn push_geometry_lines(out: &mut String, d: &DisplayEntry)
    ensures
        final(out)@ == old(out)@ + geometry_lines(*d),
{
    let ghost before = out@;
    out.append("  Resolution: ");
    push_decimal(out, d.width as u64);
    out.append("x");
    push_decimal(out, d.height as u64);
    out.append("\n  Position: (");
    push_signed_decimal(out, d.x as i64);
    out.append(", ");
    push_signed_decimal(out, d.y as i64);
    out.append(")\n");
    assert(out@ =~= before + geometry_lines(*d));
}

fn push_extra_lines(out: &mut String, d: &DisplayEntry, with_rotation: bool)
    ensures
        final(out)@ == old(out)@ + extra_lines(*d, with_rotation),
{
    let ghost before = out@;
    push_physical_line(out, d);
    push_optional_line(out, "  Refresh: ", &d.refresh, "Hz\n");
    push_optional_line(out, "  Scale: ", &d.scale, "%\n");
    push_rotation_line(out, d, with_rotation);
    assert(out@ =~= before + extra_lines(*d, with_rotation));
}

fn push_display_section(out: &mut String, i: usize, d: &DisplayEntry, with_rotation: bool)
    requires
        i < usize::MAX,
    ensures
        final(out)@ == old(out)@ + display_section(i as int, *d, with_rotation),
{
    let ghost before = out@;
    push_title_line(out, i, d);
    push_geometry_lines(out, d);
    push_extra_lines(out, d, with_rotation);
    out.append("\n");
    assert(out@ =~= before + display_section(i as int, *d, with_rotation));
}

/// Builds the report on the given displays, with or without their
/// rotations.
pub fn format_displays(displays: &Vec<DisplayEntry>, with_rotation: bool) -> (report: String)
    ensures
        report@ == display_report(displays@, with_rotation),
{
    if displays.len() == 0 {
        return String::from_str("Display Information:\n\nNo displays detected.\n");
    }
    let mut out = String::from_str("Display Information:\n\n");
    let ghost before = out@;
    let ghost section = |i: int| display_section(i, displays@[i], with_rotation);
    let mut i: usize = 0;
    assert(Seq::new(0, section) =~= Seq::<Seq<char>>::empty());
    assert(out@ =~= before + display_sections(displays@, 0, with_rotation));
    while i < displays.len()
        invariant
            i <= displays.len(),
            section == |i: int| display_section(i, displays@[i], with_rotation),
            out@ == before + display_sections(displays@, i as int, with_rotation),
        decreases displays.len() - i,
    {
        push_display_section(&mut out, i, &displays[i], with_rotation);
        proof {
            let done = Seq::new(i as nat, section);
            assert(Seq::new((i + 1) as nat, section) =~= done.push(section(i as int)));
            lemma_concat_all_push(done, section(i as int));
            assert(out@ =~= before + display_sections(displays@, i + 1, with_rotation));
        }
        i += 1;
    }
    out.append("Total displays: ");
    push_decimal(&mut out, displays.len() as u64);
    out.append("\n");
    assert(out@ =~= display_report(displays@, with_rotation));
    out
}

/// The tools of the display server, in the order in which it lists them.
pub open spec fn display_tools() -> Seq<Tool> {
    seq![Tool::DisplayInfo]
}

/// The server of the display tool.
#[derive(Debug)]
pub struct DisplayServer {
    /// The tools of this server.
    pub tool_router: Registry<Tool>,
}

impl Default for DisplayServer {
    fn default() -> (server: DisplayServer)
        ensures
            server.tool_router.handlers() == display_tools(),
            server.tool_router.descriptors() == tool_descriptors(display_tools()),
    {
        DisplayServer::new()
    }
}

impl DisplayServer {
    /// The server with its tools registered.
    pub fn new() -> (server: DisplayServer)
        ensures
            server.tool_router.handlers() == display_tools(),
            server.tool_router.descriptors() == tool_descriptors(display_tools()),
    {
        let tools = vec![Tool::DisplayInfo];
        assert(tools@ =~= display_tools());
        DisplayServer { tool_router: registry_of(&tools).unwrap() }
    }

    /// What the server says of itself.
    pub fn instructions(&self) -> (text: &'static str)
        ensures
            text@ == "Cross-platform display/monitor information server"@,
    {
        "Cross-platform display/monitor information server"
    }

    /// The descriptors of the server's tools, in order.
    pub fn list_tools(&self) -> (listed: Vec<&ToolDescriptor>)
        ensures
            listed@.len() == self.tool_router.descriptors().len(),
            forall|i: int|
                0 <= i < listed@.len() ==> (#[trigger] listed@[i])@
                    == self.tool_router.descriptors()[i],
            tool_names_distinct(self.tool_router.descriptors()),
    {
        self.tool_router.list()
    }

    /// Handles a call of one of the server's tools by name, running the
    /// tool through `run`.
    pub fn call_tool<F>(&self, run: &F, name: &str, raw: &RawArguments) -> (outcome: ToolOutcome) where
        F: Fn(&Tool, &Arguments) -> Result<String, String>,

        requires
            forall|tool: &Tool, args: &Arguments|
                self.tool_router.handlers().contains(*tool) ==> call_requires(run, (tool, args)),
        ensures
            match planned(self.tool_router.descriptors(), name@, raw@) {
                PlanView::Reject(rejection) => outcome@ == rejection,
                PlanView::Invoke(at, typed) => exists|args: Arguments, result: Result<String, String>|
                    args@ == typed && call_ensures(
                        run,
                        (&self.tool_router.handlers()[at], &args),
                        result,
                    ) && outcome@ == concluded(result_text(result)),
            },
            !has_tool(self.tool_router.descriptors(), name@) ==> outcome@ == unknown_tool(name@),
    {
        dispatch(&self.tool_router, run, name, raw)
    }
}

impl DisplayServer {
    /// The report on the given displays, rotations included.
    pub fn format_display_info(displays: &Vec<DisplayEntry>) -> (report: String)
        ensures
            report@ == display_report(displays@, true),
    {
        format_displays(displays, true)
    }

    /// The report on the given displays, rotations included.
    pub fn get_display_info(&self, displays: &Vec<DisplayEntry>) -> (report: String)
        ensures
            report@ == display_report(displays@, true),
    {
        Self::format_display_info(displays)
    }
}

} // verus!
