//! System reports: the overview, disk usage, and the process listings.

use vstd::prelude::*;
use vstd::string::*;
use crate::catalog::{registry_of, tool_descriptors, Tool};
use crate::dispatch::{concluded, dispatch, planned, result_text, unknown_tool, PlanView, ToolOutcome};
use crate::registry::{has_tool, tool_names_distinct, Registry, ToolDescriptor};
use crate::process::{process_rows, push_process_rows, push_rule, push_table_header, rank_processes, ranked, reversed, rule, table_header, top_processes, ProcessEntry, SortKey};
use crate::schema::{argument, optional_field, required_field, text_argument, unsigned_argument, Arguments, FieldSpec, FieldView, Primitive, Schema, ValueView, RawArguments};
use crate::text::{concat_all, contains_text, decimal, join_texts, joined, lemma_concat_all_push, option_text, optional_line, push_decimal, push_optional_line, same_text, text_contains, texts};
use crate::units::{bytes_text, disk_usage_percent, duration_text, floor_percent, percent_floor, push_bytes, push_duration, space_in_use, usage_percent, used_space};

verus! {

/// Arguments of the listing of the busiest processes.
#[derive(Clone, Debug, PartialEq, Eq)]
pub struct TopProcessesParams {
    /// How many processes to show; ten when absent.
    pub count: Option<usize>,
    /// `memory` or `mem` to order by memory; anything else, or nothing,
    /// orders by CPU usage.
    pub sort_by: Option<String>,
}

/// Arguments of the search for processes by name.
#[derive(Clone, Debug, PartialEq, Eq)]
pub struct FindProcessParams {
    /// Part of a process name, in any case.
    pub name: String,
}

/// Arguments of the request for the details of one process.
#[derive(Clone, Debug, PartialEq, Eq)]
pub struct ProcessIdParams {
    pub pid: u32,
}

/// The schema of [`TopProcessesParams`].
pub open spec fn top_processes_schema() -> Seq<FieldView> {
    seq![
        optional_field(
            "count"@,
            Primitive::Unsigned { max: u64::MAX },
            "Number of top processes to show (default 10)"@,
        ),
        optional_field("sort_by"@, Primitive::Text, "Sort by: 'cpu' or 'memory' (default 'cpu')"@),
    ]
}

/// The schema of [`FindProcessParams`].
pub open spec fn find_process_schema() -> Seq<FieldView> {
    seq![
        required_field(
            "name"@,
            Primitive::Text,
            "Process name to search for (case-insensitive, partial match)"@,
        ),
    ]
}

/// The schema of [`ProcessIdParams`].
pub open spec fn process_id_schema() -> Seq<FieldView> {
    seq![
        required_field(
            "pid"@,
            Primitive::Unsigned { max: u32::MAX as u64 },
            "Process ID (PID) to get details for"@,
        ),
    ]
}

/// The count that typed arguments hold: none where none is given; a count
/// beyond what the machine can index stands for the largest that it can.
pub open spec fn count_argument(args: Seq<(Seq<char>, Option<ValueView>)>) -> Option<usize> {
    match unsigned_argument(args, "count"@) {
        Some(n) => if n <= usize::MAX {
            Some(n as usize)
        } else {
            Some(usize::MAX)
        },
        None => None,
    }
}

impl TopProcessesParams {
    /// The fields that the listing of the busiest processes takes.
    pub fn schema() -> (schema: Schema)
        ensures
            schema@ == top_processes_schema(),
    {
        proof {
            reveal_strlit("count");
            reveal_strlit("sort_by");
            assert("count"@.len() != "sort_by"@.len());
        }
        Schema::pair(
            FieldSpec::optional(
                "count",
                Primitive::Unsigned { max: u64::MAX },
                "Number of top processes to show (default 10)",
            ),
            FieldSpec::optional(
                "sort_by",
                Primitive::Text,
                "Sort by: 'cpu' or 'memory' (default 'cpu')",
            ),
        ).unwrap()
    }

    /// Reads the parameters from typed arguments: the count if one is given
    /// as a number, the ordering if one is given as text.
    pub fn from_arguments(args: &Arguments) -> (params: TopProcessesParams)
        ensures
            params.count == count_argument(args@),
            option_text(params.sort_by) == text_argument(args@, "sort_by"@),
    {
        let count: Option<usize> = match args.unsigned("count") {
            Some(n) => if n <= usize::MAX as u64 {
                Some(n as usize)
            } else {
                Some(usize::MAX)
            },
            None => None,
        };
        let sort_by: Option<String> = match args.text("sort_by") {
            Some(t) => Some(t.clone()),
            None => None,
        };
        TopProcessesParams { count, sort_by }
    }
}

impl FindProcessParams {
    /// The fields that the search for processes takes.
    pub fn schema() -> (schema: Schema)
        ensures
            schema@ == find_process_schema(),
    {
        Schema::single(
            FieldSpec::required(
                "name",
                Primitive::Text,
                "Process name to search for (case-insensitive, partial match)",
            ),
        )
    }

    /// Reads the parameters from typed arguments; there are none unless the
    /// name is given as text.
    pub fn from_arguments(args: &Arguments) -> (params: Option<FindProcessParams>)
        ensures
            match text_argument(args@, "name"@) {
                Some(t) => params is Some && params->0.name@ == t,
                None => params is None,
            },
    {
        match args.text("name") {
            Some(t) => Some(FindProcessParams { name: t.clone() }),
            None => None,
        }
    }
}

impl ProcessIdParams {
    /// The fields that the request for a process's details takes.
    pub fn schema() -> (schema: Schema)
        ensures
            schema@ == process_id_schema(),
    {
        Schema::single(
            FieldSpec::required(
                "pid",
                Primitive::Unsigned { max: u32::MAX as u64 },
                "Process ID (PID) to get details for",
            ),
        )
    }

    /// Reads the parameters from typed arguments; there are none unless the
    /// process id is given as a number that the field can hold.
    pub fn from_arguments(args: &Arguments) -> (params: Option<ProcessIdParams>)
        ensures
            match unsigned_argument(args@, "pid"@) {
                Some(n) => if n <= u32::MAX {
                    params is Some && params->0.pid == n
                } else {
                    params is None
                },
                None => params is None,
            },
    {
        match args.unsigned("pid") {
            Some(n) => if n <= u32::MAX as u64 {
                Some(ProcessIdParams { pid: n as u32 })
            } else {
                None
            },
            None => None,
        }
    }
}

/// One mounted filesystem.
#[derive(Clone, Debug, PartialEq, Eq)]
pub struct DiskInfo {
    pub name: String,
    pub file_system: String,
    pub mount_point: String,
    /// Size in bytes.
    pub total_space: u64,
    /// Bytes available to the user.
    pub available_space: u64,
}

/// What the overview is built from. Measurements that are fractions come
/// rendered as numerals.
#[derive(Clone, Debug, PartialEq, Eq)]
pub struct SystemSnapshot {
    /// Brand of the first processor.
    pub cpu_name: Option<String>,
    pub cpu_count: usize,
    /// Mean CPU usage in percent, with one decimal place.
    pub cpu_usage: String,
    pub total_memory: u64,
    pub used_memory: u64,
    pub total_swap: u64,
    pub used_swap: u64,
    pub disks: Vec<DiskInfo>,
    pub uptime_seconds: u64,
    /// Load averages over one, five and fifteen minutes, with two decimal
    /// places.
    pub load_one: String,
    pub load_five: String,
    pub load_fifteen: String,
}

/// What the details of a process are built from.
#[derive(Clone, Debug, PartialEq, Eq)]
pub struct ProcessDetails {
    pub name: String,
    /// The run state, as a word.
    pub status: String,
    /// CPU usage in percent, with one decimal place.
    pub cpu: String,
    pub memory: u64,
    pub virtual_memory: u64,
    pub parent: Option<u32>,
    /// Seconds since the process started.
    pub run_time: u64,
    pub exe: Option<String>,
    pub cwd: Option<String>,
    /// The command line, argument by argument.
    pub cmd: Vec<String>,
}

/// How many processes the listing of the busiest shows when not told.
pub const DEFAULT_TOP_COUNT: usize = 10;

/// How many matches a search shows.
pub const SHOWN_MATCHES: usize = 20;

/// How many processes the full listing shows.
pub const SHOWN_PROCESSES: usize = 50;

/// How many characters of a command line are shown.
pub const SHOWN_COMMAND: usize = 200;

/// The largest number that fits the unsigned 64-bit type, or `n` if it does.
pub open spec fn capped(n: nat) -> nat {
    if n > u64::MAX {
        u64::MAX as nat
    } else {
        n
    }
}

/// The sizes of the filesystems, added up.
pub open spec fn total_space_of(disks: Seq<DiskInfo>) -> nat
    decreases disks.len(),
{
    if disks.len() == 0 {
        0
    } else {
        total_space_of(disks.drop_last()) + disks.last().total_space as nat
    }
}

/// The available space of the filesystems, added up.
pub open spec fn available_space_of(disks: Seq<DiskInfo>) -> nat
    decreases disks.len(),
{
    if disks.len() == 0 {
        0
    } else {
        available_space_of(disks.drop_last()) + disks.last().available_space as nat
    }
}

/// The key that a request names: memory for `memory` and `mem`, CPU usage
/// for anything else.
pub open spec fn sort_key_of(sort_by: Seq<char>) -> SortKey {
    if sort_by == "memory"@ || sort_by == "mem"@ {
        SortKey::Memory
    } else {
        SortKey::Cpu
    }
}

/// The count that a request asks for.
pub open spec fn requested_count(params: TopProcessesParams) -> nat {
    match params.count {
        Some(c) => c as nat,
        None => DEFAULT_TOP_COUNT as nat,
    }
}

/// The ordering that a request asks for, as written.
pub open spec fn requested_order(params: TopProcessesParams) -> Seq<char> {
    match params.sort_by {
        Some(s) => s@,
        None => "cpu"@,
    }
}

/// The overview of the system.
pub open spec fn system_report(sys: SystemSnapshot) -> Seq<char> {
    "System Information:\n\nCPU: "@ + (match sys.cpu_name {
        Some(n) => n@,
        None => "Unknown"@,
    }) + " ("@ + decimal(sys.cpu_count as nat) + " cores)\nCPU Usage: "@ + sys.cpu_usage@
        + "%\n\nMemory: "@ + bytes_text(sys.used_memory as nat) + " / "@ + bytes_text(
        sys.total_memory as nat,
    ) + " ("@ + decimal(capped(percent_floor(sys.used_memory as nat, sys.total_memory as nat)))
        + "%)\nSwap: "@ + bytes_text(sys.used_swap as nat) + " / "@ + bytes_text(
        sys.total_swap as nat,
    ) + "\n\nDisk: "@ + bytes_text(capped(available_space_of(sys.disks@))) + " / "@ + bytes_text(
        capped(total_space_of(sys.disks@)),
    ) + " free\n\nUptime: "@ + decimal((sys.uptime_seconds / 3600) as nat) + "h "@ + decimal(
        ((sys.uptime_seconds % 3600) / 60) as nat,
    ) + "m\nLoad Average: "@ + sys.load_one@ + " "@ + sys.load_five@ + " "@ + sys.load_fifteen@
        + " (1m 5m 15m)"@
}

/// The block of one filesystem in the disk report.
pub open spec fn disk_section(d: DiskInfo) -> Seq<char> {
    d.name@ + " ("@ + d.file_system@ + ")\n  "@ + bytes_text(
        used_space(d.total_space as nat, d.available_space as nat),
    ) + " / "@ + bytes_text(d.total_space as nat) + " ("@ + decimal(
        usage_percent(d.total_space as nat, d.available_space as nat),
    ) + "% used)\n  Mount: "@ + d.mount_point@ + "\n\n"@
}

/// The disk report: a block for each filesystem.
pub open spec fn disk_report(disks: Seq<DiskInfo>) -> Seq<char> {
    "Disk Usage:\n\n"@ + concat_all(disks.map_values(|d: DiskInfo| disk_section(d)))
}

/// The listing of the busiest processes.
pub open spec fn top_report(entries: Seq<ProcessEntry>, params: TopProcessesParams) -> Seq<char> {
    let count = requested_count(params);
    let order = requested_order(params);
    let shown = if count <= entries.len() {
        count
    } else {
        entries.len()
    };
    "Top "@ + decimal(count) + " processes by "@ + order + ":\n\n"@ + table_header() + rule(50)
        + process_rows(ranked(entries, sort_key_of(order)).take(shown as int))
}

/// What a search reports of its matches, given in the order in which they
/// are to be shown.
pub open spec fn matches_report(name: Seq<char>, matches: Seq<ProcessEntry>) -> Seq<char> {
    "Processes matching '"@ + name + "':\n\n"@ + (if matches.len() == 0 {
        "No matching processes found.\n"@
    } else if matches.len() <= SHOWN_MATCHES {
        table_header() + rule(50) + process_rows(matches) + "\nTotal matches: "@ + decimal(
            matches.len(),
        ) + "\n"@
    } else {
        table_header() + rule(50) + process_rows(matches.take(SHOWN_MATCHES as int))
            + "\n... and "@ + decimal((matches.len() - SHOWN_MATCHES) as nat)
            + " more matches\n\nTotal matches: "@ + decimal(matches.len()) + "\n"@
    })
}

/// The lower-case form of a text, as the standard library gives it.
pub uninterp spec fn lowercased(s: Seq<char>) -> Seq<char>;

/// Calls `str::to_lowercase`. The result is whatever that function makes of
/// the text; nothing more is claimed of it.
#[verifier::external_body]
fn to_lower(s: &str) -> (low: String)
    ensures
        low@ == lowercased(s@),
{
    s.to_lowercase()
}

/// Whether the name of a process holds the search text, both taken in lower
/// case. The search text is handed in already lowered.
pub open spec fn name_matches(e: ProcessEntry, lowered_search: Seq<char>) -> bool {
    contains_text(lowercased(e.name@), lowered_search)
}

/// The processes whose names match, in the order they came in.
pub open spec fn matching(entries: Seq<ProcessEntry>, lowered_search: Seq<char>) -> Seq<
    ProcessEntry,
> {
    entries.filter(|e: ProcessEntry| name_matches(e, lowered_search))
}

/// The report of a search by name: the matches from busiest to idlest.
pub open spec fn find_report(entries: Seq<ProcessEntry>, name: Seq<char>) -> Seq<char> {
    matches_report(name, ranked(matching(entries, lowercased(name)), SortKey::Cpu))
}

/// The command line as shown: its arguments with spaces between, cut short
/// with an ellipsis when long.
pub open spec fn command_text(cmd: Seq<Seq<char>>) -> Seq<char> {
    let line = joined(cmd, " "@);
    if cmd.len() == 0 {
        Seq::empty()
    } else if line.len() > SHOWN_COMMAND {
        "Command: "@ + line.take(SHOWN_COMMAND as int) + "...\n"@
    } else {
        "Command: "@ + line + "\n"@
    }
}

/// The details of one process.
pub open spec fn details_report(pid: u32, p: ProcessDetails) -> Seq<char> {
    "Process Details (PID "@ + decimal(pid as nat) + "):\n\nName: "@ + p.name@ + "\nStatus: "@
        + p.status@ + "\nCPU Usage: "@ + p.cpu@ + "%\nMemory: "@ + bytes_text(p.memory as nat)
        + "\nVirtual Memory: "@ + bytes_text(p.virtual_memory as nat) + "\n"@ + (match p.parent {
        Some(parent) => "Parent PID: "@ + decimal(parent as nat) + "\n"@,
        None => Seq::empty(),
    }) + "Running for: "@ + duration_text(p.run_time as nat) + "\n"@ + optional_line(
        "Executable: "@,
        option_text(p.exe),
        "\n"@,
    ) + optional_line("Working Dir: "@, option_text(p.cwd), "\n"@) + command_text(texts(p.cmd@))
}

/// What is reported of a process that may not exist.
pub open spec fn details_outcome(pid: u32, found: Option<ProcessDetails>) -> Result<
    Seq<char>,
    Seq<char>,
> {
    match found {
        Some(p) => Ok(details_report(pid, p)),
        None => Err("Process "@ + decimal(pid as nat) + " not found"@),
    }
}

/// The full listing: the busiest processes first, and how many there are.
pub open spec fn listing_report(entries: Seq<ProcessEntry>) -> Seq<char> {
    let sorted = ranked(entries, SortKey::Cpu);
    "All Running Processes:\n\n"@ + table_header() + rule(60) + (if entries.len()
        <= SHOWN_PROCESSES {
        process_rows(sorted)
    } else {
        process_rows(sorted.take(SHOWN_PROCESSES as int)) + "\n... and "@ + decimal(
            (entries.len() - SHOWN_PROCESSES) as nat,
        ) + " more processes\n"@
    }) + "\nTotal processes: "@ + decimal(entries.len()) + "\n"@
}

/// Adds up the sizes and the available space of the filesystems; a sum too
/// large for the result type is reported as the largest value it holds.
pub fn disk_totals(disks: &Vec<DiskInfo>) -> (sums: (u64, u64))
    ensures
        sums.0 == capped(total_space_of(disks@)),
        sums.1 == capped(available_space_of(disks@)),
{
    let mut total: u64 = 0;
    let mut available: u64 = 0;
    let mut i: usize = 0;
    assert(disks@.take(0) =~= Seq::<DiskInfo>::empty());
    while i < disks.len()
        invariant
            i <= disks.len(),
            total == capped(total_space_of(disks@.take(i as int))),
            available == capped(available_space_of(disks@.take(i as int))),
        decreases disks.len() - i,
    {
        assert(disks@.take(i + 1).drop_last() =~= disks@.take(i as int));
        total = total.saturating_add(disks[i].total_space);
        available = available.saturating_add(disks[i].available_space);
        i += 1;
    }
    assert(disks@.take(disks.len() as int) =~= disks@);
    (total, available)
}

/// Reads the key that a request names.
pub fn parse_sort_key(sort_by: &str) -> (key: SortKey)
    ensures
        key == sort_key_of(sort_by@),
{
    if same_text(sort_by, "memory") || same_text(sort_by, "mem") {
        SortKey::Memory
    } else {
        SortKey::Cpu
    }
}

fn push_disk_section(out: &mut String, d: &DiskInfo)
    ensures
        final(out)@ == old(out)@ + disk_section(*d),
{
    let ghost before = out@;
    out.append(d.name.as_str());
    out.append(" (");
    out.append(d.file_system.as_str());
    out.append(")\n  ");
    push_bytes(out, space_in_use(d.total_space, d.available_space));
    out.append(" / ");
    push_bytes(out, d.total_space);
    out.append(" (");
    push_decimal(out, disk_usage_percent(d.total_space, d.available_space));
    out.append("% used)\n  Mount: ");
    out.append(d.mount_point.as_str());
    out.append("\n\n");
    assert(out@ =~= before + disk_section(*d));
}

fn push_memory_lines(out: &mut String, sys: &SystemSnapshot)
    ensures
        final(out)@ == old(out)@ + "%\n\nMemory: "@ + bytes_text(sys.used_memory as nat) + " / "@
            + bytes_text(sys.total_memory as nat) + " ("@ + decimal(
            capped(percent_floor(sys.used_memory as nat, sys.total_memory as nat)),
        ) + "%)\nSwap: "@ + bytes_text(sys.used_swap as nat) + " / "@ + bytes_text(
            sys.total_swap as nat,
        ),
{
    let ghost before = out@;
    out.append("%\n\nMemory: ");
    push_bytes(out, sys.used_memory);
    out.append(" / ");
    push_bytes(out, sys.total_memory);
    out.append(" (");
    push_decimal(out, floor_percent(sys.used_memory, sys.total_memory));
    out.append("%)\nSwap: ");
    push_bytes(out, sys.used_swap);
    out.append(" / ");
    push_bytes(out, sys.total_swap);
    assert(out@ =~= before + "%\n\nMemory: "@ + bytes_text(sys.used_memory as nat) + " / "@
        + bytes_text(sys.total_memory as nat) + " ("@ + decimal(
        capped(percent_floor(sys.used_memory as nat, sys.total_memory as nat)),
    ) + "%)\nSwap: "@ + bytes_text(sys.used_swap as nat) + " / "@ + bytes_text(
        sys.total_swap as nat,
    ));
}

fn push_load_line(out: &mut String, sys: &SystemSnapshot)
    ensures
        final(out)@ == old(out)@ + "m\nLoad Average: "@ + sys.load_one@ + " "@ + sys.load_five@
            + " "@ + sys.load_fifteen@ + " (1m 5m 15m)"@,
{
    let ghost before = out@;
    out.append("m\nLoad Average: ");
    out.append(sys.load_one.as_str());
    out.append(" ");
    out.append(sys.load_five.as_str());
    out.append(" ");
    out.append(sys.load_fifteen.as_str());
    out.append(" (1m 5m 15m)");
    assert(out@ =~= before + "m\nLoad Average: "@ + sys.load_one@ + " "@ + sys.load_five@ + " "@
        + sys.load_fifteen@ + " (1m 5m 15m)"@);
}

fn push_command(out: &mut String, cmd: &Vec<String>)
    ensures
        final(out)@ == old(out)@ + command_text(texts(cmd@)),
{
    let ghost before = out@;
    if cmd.len() > 0 {
        let line = join_texts(cmd, " ");
        if line.as_str().unicode_len() > SHOWN_COMMAND {
            out.append("Command: ");
            out.append(line.as_str().substring_char(0, SHOWN_COMMAND));
            out.append("...\n");
        } else {
            out.append("Command: ");
            out.append(line.as_str());
            out.append("\n");
        }
    }
    assert(out@ =~= before + command_text(texts(cmd@)));
}

/// Keeps the processes whose names hold the search text, which is handed in
/// already lowered, in the order they came in.
pub fn keep_matching(entries: Vec<ProcessEntry>, lowered_search: &str) -> (kept: Vec<ProcessEntry>)
    ensures
        kept@ == matching(entries@, lowered_search@),
{
    let ghost all = entries@;
    let ghost pred = |e: ProcessEntry| name_matches(e, lowered_search@);
    let mut back = reversed(entries);
    let mut kept: Vec<ProcessEntry> = Vec::new();
    assert(all.take(0) =~= Seq::<ProcessEntry>::empty());
    while back.len() > 0
        invariant
            back@.len() <= all.len(),
            pred == |e: ProcessEntry| name_matches(e, lowered_search@),
            forall|k: int| 0 <= k < back@.len() ==> back@[k] == all[all.len() - 1 - k],
            kept@ == all.take(all.len() - back@.len()).filter(pred),
        decreases back@.len(),
    {
        let ghost done = all.len() - back@.len();
        let e = back.pop().unwrap();
        assert(e == all[done]);
        proof {
            assert(all.take(done + 1) =~= all.take(done).push(e));
            Seq::lemma_filter_push(all.take(done), e, pred);
        }
        let low = to_lower(e.name.as_str());
        if text_contains(low.as_str(), lowered_search) {
            kept.push(e);
        }
    }
    assert(all.take(all.len() as int) =~= all);
    kept
}

/// Builds the report of a search from its matches, given in the order in
/// which they are to be shown.
pub fn report_matches(name: &str, matches: &Vec<ProcessEntry>) -> (report: String)
    ensures
        report@ == matches_report(name@, matches@),
{
    let mut out = String::from_str("Processes matching '");
    out.append(name);
    out.append("':\n\n");
    let n = matches.len();
    if n == 0 {
        out.append("No matching processes found.\n");
    } else if n <= SHOWN_MATCHES {
        push_table_header(&mut out);
        push_rule(&mut out, 50);
        push_process_rows(&mut out, matches, n);
        assert(matches@.take(n as int) =~= matches@);
        out.append("\nTotal matches: ");
        push_decimal(&mut out, n as u64);
        out.append("\n");
    } else {
        push_table_header(&mut out);
        push_rule(&mut out, 50);
        push_process_rows(&mut out, matches, SHOWN_MATCHES);
        out.append("\n... and ");
        push_decimal(&mut out, (n - SHOWN_MATCHES) as u64);
        out.append(" more matches\n\nTotal matches: ");
        push_decimal(&mut out, n as u64);
        out.append("\n");
    }
    assert(out@ =~= matches_report(name@, matches@));
    out
}

/// The overview: processor, memory, swap, disk space, uptime and load.
pub fn build_system_report(sys: &SystemSnapshot) -> (report: String)
    ensures
        report@ == system_report(*sys),
{
    let mut out = String::from_str("System Information:\n\nCPU: ");
    match &sys.cpu_name {
        Some(n) => out.append(n.as_str()),
        None => out.append("Unknown"),
    }
    out.append(" (");
    push_decimal(&mut out, sys.cpu_count as u64);
    out.append(" cores)\nCPU Usage: ");
    out.append(sys.cpu_usage.as_str());
    push_memory_lines(&mut out, sys);
    let sums = disk_totals(&sys.disks);
    out.append("\n\nDisk: ");
    push_bytes(&mut out, sums.1);
    out.append(" / ");
    push_bytes(&mut out, sums.0);
    out.append(" free\n\nUptime: ");
    push_decimal(&mut out, sys.uptime_seconds / 3600);
    out.append("h ");
    push_decimal(&mut out, (sys.uptime_seconds % 3600) / 60);
    push_load_line(&mut out, sys);
    assert(out@ =~= system_report(*sys));
    out
}

/// The usage of every mounted filesystem.
pub fn build_disk_report(disks: &Vec<DiskInfo>) -> (report: String)
    ensures
        report@ == disk_report(disks@),
{
    let mut out = String::from_str("Disk Usage:\n\n");
    let ghost before = out@;
    let ghost section = |d: DiskInfo| disk_section(d);
    let mut i: usize = 0;
    assert(disks@.take(0).map_values(section) =~= Seq::<Seq<char>>::empty());
    assert(out@ =~= before + concat_all(disks@.take(0).map_values(section)));
    while i < disks.len()
        invariant
            i <= disks.len(),
            section == |d: DiskInfo| disk_section(d),
            out@ == before + concat_all(disks@.take(i as int).map_values(section)),
        decreases disks.len() - i,
    {
        push_disk_section(&mut out, &disks[i]);
        proof {
            let done = disks@.take(i as int).map_values(section);
            assert(disks@.take(i + 1).map_values(section) =~= done.push(
                disk_section(disks@[i as int]),
            ));
            lemma_concat_all_push(done, disk_section(disks@[i as int]));
        }
        i += 1;
    }
    assert(disks@.take(disks.len() as int) =~= disks@);
    out
}

/// The busiest processes by CPU usage or memory, as many as asked for.
pub fn build_top_report(params: &TopProcessesParams, entries: Vec<ProcessEntry>) -> (report:
    String)
    ensures
        report@ == top_report(entries@, *params),
{
    let count: usize = match params.count {
        Some(c) => c,
        None => DEFAULT_TOP_COUNT,
    };
    let mut out = String::from_str("Top ");
    push_decimal(&mut out, count as u64);
    out.append(" processes by ");
    let key = match &params.sort_by {
        Some(s) => {
            out.append(s.as_str());
            parse_sort_key(s.as_str())
        },
        None => {
            out.append("cpu");
            parse_sort_key("cpu")
        },
    };
    out.append(":\n\n");
    push_table_header(&mut out);
    push_rule(&mut out, 50);
    let top = top_processes(entries, count, key);
    push_process_rows(&mut out, &top, top.len());
    assert(top@.take(top@.len() as int) =~= top@);
    assert(out@ =~= top_report(entries@, *params));
    out
}

/// The processes whose names hold the given text, in any case, from
/// busiest to idlest.
pub fn build_find_report(params: &FindProcessParams, entries: Vec<ProcessEntry>) -> (report:
    String)
    ensures
        report@ == find_report(entries@, params.name@),
{
    let search = to_lower(params.name.as_str());
    let kept = keep_matching(entries, search.as_str());
    let sorted = rank_processes(kept, SortKey::Cpu);
    report_matches(params.name.as_str(), &sorted)
}

/// The details of one process, or that there is no such process.
pub fn build_details_report(params: &ProcessIdParams, found: Option<&ProcessDetails>) -> (report:
    Result<String, String>)
    ensures
        match details_outcome(
            params.pid,
            match found {
                Some(p) => Some(*p),
                None => None,
            },
        ) {
            Ok(text) => report is Ok && report->Ok_0@ == text,
            Err(reason) => report is Err && report->Err_0@ == reason,
        },
{
    match found {
        None => {
            let mut message = String::from_str("Process ");
            push_decimal(&mut message, params.pid as u64);
            message.append(" not found");
            Err(message)
        },
        Some(p) => {
            let mut out = String::from_str("Process Details (PID ");
            push_decimal(&mut out, params.pid as u64);
            out.append("):\n\nName: ");
            out.append(p.name.as_str());
            out.append("\nStatus: ");
            out.append(p.status.as_str());
            out.append("\nCPU Usage: ");
            out.append(p.cpu.as_str());
            out.append("%\nMemory: ");
            push_bytes(&mut out, p.memory);
            out.append("\nVirtual Memory: ");
            push_bytes(&mut out, p.virtual_memory);
            out.append("\n");
            match p.parent {
                Some(parent) => {
                    out.append("Parent PID: ");
                    push_decimal(&mut out, parent as u64);
                    out.append("\n");
                },
                None => {},
            }
            out.append("Running for: ");
            push_duration(&mut out, p.run_time);
            out.append("\n");
            push_optional_line(&mut out, "Executable: ", &p.exe, "\n");
            push_optional_line(&mut out, "Working Dir: ", &p.cwd, "\n");
            push_command(&mut out, &p.cmd);
            assert(out@ =~= details_report(params.pid, *p));
            Ok(out)
        },
    }
}

/// All processes from busiest to idlest: the first of them line by line,
/// and how many there are.
pub fn build_listing_report(entries: Vec<ProcessEntry>) -> (report: String)
    ensures
        report@ == listing_report(entries@),
{
    let sorted = rank_processes(entries, SortKey::Cpu);
    let n = sorted.len();
    let mut out = String::from_str("All Running Processes:\n\n");
    push_table_header(&mut out);
    push_rule(&mut out, 60);
    if n <= SHOWN_PROCESSES {
        push_process_rows(&mut out, &sorted, n);
        assert(sorted@.take(n as int) =~= sorted@);
    } else {
        push_process_rows(&mut out, &sorted, SHOWN_PROCESSES);
        out.append("\n... and ");
        push_decimal(&mut out, (n - SHOWN_PROCESSES) as u64);
        out.append(" more processes\n");
    }
    out.append("\nTotal processes: ");
    push_decimal(&mut out, n as u64);
    out.append("\n");
    assert(out@ =~= listing_report(entries@));
    out
}

/// The tools of the system server, in the order in which it lists them.
pub open spec fn sysinfo_tools() -> Seq<Tool> {
    seq![Tool::SystemInfo, Tool::DiskInfo, Tool::TopProcesses, Tool::FindProcess, Tool::ProcessDetails, Tool::ListProcesses]
}

/// The server of the system tools.
#[derive(Debug)]
pub struct SysinfoServer {
    /// The tools of this server.
    pub tool_router: Registry<Tool>,
}

impl Default for SysinfoServer {
    fn default() -> (server: SysinfoServer)
        ensures
            server.tool_router.handlers() == sysinfo_tools(),
            server.tool_router.descriptors() == tool_descriptors(sysinfo_tools()),
    {
        SysinfoServer::new()
    }
}

impl SysinfoServer {
    /// The server with its tools registered.
    pub fn new() -> (server: SysinfoServer)
        ensures
            server.tool_router.handlers() == sysinfo_tools(),
            server.tool_router.descriptors() == tool_descriptors(sysinfo_tools()),
    {
        let tools = vec![Tool::SystemInfo, Tool::DiskInfo, Tool::TopProcesses, Tool::FindProcess, Tool::ProcessDetails, Tool::ListProcesses];
        assert(tools@ =~= sysinfo_tools());
        SysinfoServer { tool_router: registry_of(&tools).unwrap() }
    }

    /// What the server says of itself.
    pub fn instructions(&self) -> (text: &'static str)
        ensures
            text@ == "System information server - CPU, memory, disk, processes"@,
    {
        "System information server - CPU, memory, disk, processes"
    }

    /// The descriptors of the server's tools, in order.
    pub fn list_tools(&self) -> (listed: Vec<&ToolDescriptor>)
        ensures
            listed@.len() == self.tool_router.descriptors().len(),
            forall|i: int|
                0 <= i < listed@.len() ==> (#[trigger] listed@[i])@
                    == self.tool_router.descriptors()[i],
            tool_names_distinct(self.tool_router.descriptors()),
    {
        self.tool_router.list()
    }

    /// Handles a call of one of the server's tools by name, running the
    /// tool through `run`.
    pub fn call_tool<F>(&self, run: &F, name: &str, raw: &RawArguments) -> (outcome: ToolOutcome) where
        F: Fn(&Tool, &Arguments) -> Result<String, String>,

        requires
            forall|tool: &Tool, args: &Arguments|
                self.tool_router.handlers().contains(*tool) ==> call_requires(run, (tool, args)),
        ensures
            match planned(self.tool_router.descriptors(), name@, raw@) {
                PlanView::Reject(rejection) => outcome@ == rejection,
                PlanView::Invoke(at, typed) => exists|args: Arguments, result: Result<String, String>|
                    args@ == typed && call_ensures(
                        run,
                        (&self.tool_router.handlers()[at], &args),
                        result,
                    ) && outcome@ == concluded(result_text(result)),
            },
            !has_tool(self.tool_router.descriptors(), name@) ==> outcome@ == unknown_tool(name@),
    {
        dispatch(&self.tool_router, run, name, raw)
    }
}

impl SysinfoServer {
    /// The overview: processor, memory, swap, disk space, uptime and load.
    pub fn get_system_info(&self, sys: &SystemSnapshot) -> (report: String)
        ensures
            report@ == system_report(*sys),
    {
        build_system_report(sys)
    }

    /// The usage of every mounted filesystem.
    pub fn get_disk_info(&self, disks: &Vec<DiskInfo>) -> (report: String)
        ensures
            report@ == disk_report(disks@),
    {
        build_disk_report(disks)
    }

    /// The busiest processes by CPU usage or memory, as many as asked for.
    pub fn get_top_processes(&self, params: &TopProcessesParams, entries: Vec<ProcessEntry>) -> (report:
        String)
        ensures
            report@ == top_report(entries@, *params),
    {
        build_top_report(params, entries)
    }

    /// The processes whose names hold the given text, in any case, from
    /// busiest to idlest.
    pub fn find_process(&self, params: &FindProcessParams, entries: Vec<ProcessEntry>) -> (report:
        String)
        ensures
            report@ == find_report(entries@, params.name@),
    {
        build_find_report(params, entries)
    }

    /// The details of one process, or that there is no such process.
    pub fn get_process_details(&self, params: &ProcessIdParams, found: Option<&ProcessDetails>) -> (report:
        Result<String, String>)
        ensures
            match details_outcome(
                params.pid,
                match found {
                    Some(p) => Some(*p),
                    None => None,
                },
            ) {
                Ok(text) => report is Ok && report->Ok_0@ == text,
                Err(reason) => report is Err && report->Err_0@ == reason,
            },
    {
        build_details_report(params, found)
    }

    /// All processes from busiest to idlest: the first of them line by line,
    /// and how many there are.
    pub fn list_processes(&self, entries: Vec<ProcessEntry>) -> (report: String)
        ensures
            report@ == listing_report(entries@),
    {
        build_listing_report(entries)
    }
}

} // verus!
