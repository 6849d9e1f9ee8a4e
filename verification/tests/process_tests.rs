use sensor_tools::process::{
    push_process_row, push_process_rows, push_rule, push_table_header, rank_processes, reversed,
    top_processes, value_under, ProcessEntry, SortKey,
};
use sensor_tools::schema::{validate, RawArguments, RawValue, Reason};
use sensor_tools::sysinfo::{
    build_details_report, build_disk_report, build_find_report, build_listing_report,
    build_system_report, build_top_report, disk_totals, keep_matching, parse_sort_key,
    report_matches, DiskInfo, FindProcessParams, ProcessDetails, ProcessIdParams, SysinfoServer,
    SystemSnapshot, TopProcessesParams,
};

fn proc(pid: u32, name: &str, cpu: f32, memory: u64) -> ProcessEntry {
    ProcessEntry {
        pid,
        name: String::from(name),
        cpu_rank: cpu.to_bits(),
        cpu: format!("{:.1}", cpu),
        memory,
    }
}

fn row(pid: u32, cpu: f32, memory: &str, name: &str) -> String {
    format!("{:<8} {:<10.1} {:<10} {}\n", pid, cpu, memory, name)
}

fn header() -> String {
    format!("{:<8} {:<10} {:<10} {}\n", "PID", "CPU%", "Memory", "Name")
}

fn rule(width: usize) -> String {
    format!("{}\n", "-".repeat(width))
}

fn sample() -> Vec<ProcessEntry> {
    vec![
        proc(10, "init", 0.0, 4096),
        proc(20, "firefox", 12.5, 3 * 1073741824),
        proc(30, "rustc", 99.9, 1048576),
        proc(40, "FireWall", 12.5, 2048),
        proc(50, "bash", 0.1, 512),
        proc(60, "Xorg", 3.0, 3 * 1073741824),
    ]
}

fn pids(entries: &[ProcessEntry]) -> Vec<u32> {
    entries.iter().map(|e| e.pid).collect()
}

#[test]
fn ranking_by_cpu_is_descending_and_keeps_ties_in_order() {
    let sorted = rank_processes(sample(), SortKey::Cpu);
    assert_eq!(pids(&sorted), vec![30, 20, 40, 60, 50, 10]);
}

#[test]
fn ranking_by_memory_is_descending_and_keeps_ties_in_order() {
    let sorted = rank_processes(sample(), SortKey::Memory);
    assert_eq!(pids(&sorted), vec![20, 60, 30, 10, 40, 50]);
    assert_eq!(value_under(&sorted[0], SortKey::Memory), 3 * 1073741824);
    assert_eq!(value_under(&sorted[0], SortKey::Cpu), 12.5f32.to_bits() as u64);
}

#[test]
fn ranking_agrees_with_a_stable_sort() {
    let mut x: u64 = 1234567;
    for round in 0..200 {
        let n = round % 23;
        let mut entries = Vec::new();
        for i in 0..n {
            x ^= x << 13;
            x ^= x >> 7;
            x ^= x << 17;
            entries.push(ProcessEntry {
                pid: i as u32,
                name: String::new(),
                cpu_rank: (x % 5) as u32,
                cpu: String::new(),
                memory: (x >> 8) % 4,
            });
        }
        let mut by_cpu = entries.clone();
        by_cpu.sort_by(|a, b| b.cpu_rank.cmp(&a.cpu_rank));
        assert_eq!(rank_processes(entries.clone(), SortKey::Cpu), by_cpu);
        let mut by_mem = entries.clone();
        by_mem.sort_by(|a, b| b.memory.cmp(&a.memory));
        assert_eq!(rank_processes(entries.clone(), SortKey::Memory), by_mem);
    }
}

#[test]
fn top_n_has_the_smaller_of_n_and_all() {
    for n in [0usize, 1, 3, 6, 7, 1000, usize::MAX] {
        let top = top_processes(sample(), n, SortKey::Cpu);
        assert_eq!(top.len(), n.min(6));
        for pair in top.windows(2) {
            assert!(pair[0].cpu_rank >= pair[1].cpu_rank);
        }
        let full = rank_processes(sample(), SortKey::Cpu);
        assert_eq!(top[..], full[..top.len()]);
        let top = top_processes(sample(), n, SortKey::Memory);
        assert_eq!(top.len(), n.min(6));
        for pair in top.windows(2) {
            assert!(pair[0].memory >= pair[1].memory);
        }
    }
    assert!(top_processes(vec![], 5, SortKey::Cpu).is_empty());
}

#[test]
fn reversing() {
    assert_eq!(pids(&reversed(sample())), vec![60, 50, 40, 30, 20, 10]);
    assert!(reversed(vec![]).is_empty());
}

#[test]
fn sort_keys_from_words() {
    assert_eq!(parse_sort_key("memory"), SortKey::Memory);
    assert_eq!(parse_sort_key("mem"), SortKey::Memory);
    assert_eq!(parse_sort_key("cpu"), SortKey::Cpu);
    assert_eq!(parse_sort_key("Memory"), SortKey::Cpu);
    assert_eq!(parse_sort_key(""), SortKey::Cpu);
    assert_eq!(parse_sort_key("bogus"), SortKey::Cpu);
}

#[test]
fn table_pieces() {
    let mut out = String::new();
    push_table_header(&mut out);
    assert_eq!(out, header());
    assert_eq!(out, "PID      CPU%       Memory     Name\n");
    let mut out = String::new();
    push_rule(&mut out, 50);
    assert_eq!(out, rule(50));
    let mut out = String::new();
    push_process_row(&mut out, &proc(1234, "my proc", 7.25, 1536));
    assert_eq!(out, "1234     7.2        1.5 KB     my proc\n");
    let mut out = String::new();
    push_process_row(&mut out, &proc(4000000000, "x", 100.0, 1073741824 * 1000));
    assert_eq!(out, row(4000000000, 100.0, "1000.0 GB", "x"));
    let mut out = String::new();
    push_process_rows(&mut out, &sample(), 2);
    assert_eq!(out, row(10, 0.0, "4.0 KB", "init") + &row(20, 12.5, "3.0 GB", "firefox"));
}

#[test]
fn top_report_by_default_and_by_memory() {
    let server = SysinfoServer::new();
    let text =
        server.get_top_processes(&TopProcessesParams { count: None, sort_by: None }, sample());
    let expected = String::from("Top 10 processes by cpu:\n\n")
        + &header()
        + &rule(50)
        + &row(30, 99.9, "1.0 MB", "rustc")
        + &row(20, 12.5, "3.0 GB", "firefox")
        + &row(40, 12.5, "2.0 KB", "FireWall")
        + &row(60, 3.0, "3.0 GB", "Xorg")
        + &row(50, 0.1, "512 B", "bash")
        + &row(10, 0.0, "4.0 KB", "init");
    assert_eq!(text, expected);
    let text = build_top_report(
        &TopProcessesParams { count: Some(2), sort_by: Some(String::from("memory")) },
        sample(),
    );
    let expected = String::from("Top 2 processes by memory:\n\n")
        + &header()
        + &rule(50)
        + &row(20, 12.5, "3.0 GB", "firefox")
        + &row(60, 3.0, "3.0 GB", "Xorg");
    assert_eq!(text, expected);
    let text = build_top_report(
        &TopProcessesParams { count: Some(0), sort_by: Some(String::from("whatever")) },
        sample(),
    );
    assert_eq!(text, String::from("Top 0 processes by whatever:\n\n") + &header() + &rule(50));
}

#[test]
fn finding_processes_ignores_case() {
    let server = SysinfoServer::new();
    let text = server.find_process(&FindProcessParams { name: String::from("FIRE") }, sample());
    let expected = String::from("Processes matching 'FIRE':\n\n")
        + &header()
        + &rule(50)
        + &row(20, 12.5, "3.0 GB", "firefox")
        + &row(40, 12.5, "2.0 KB", "FireWall")
        + "\nTotal matches: 2\n";
    assert_eq!(text, expected);
    assert_eq!(
        build_find_report(&FindProcessParams { name: String::from("emacs") }, sample()),
        "Processes matching 'emacs':\n\nNo matching processes found.\n"
    );
    let all = build_find_report(&FindProcessParams { name: String::new() }, sample());
    assert!(all.ends_with("\nTotal matches: 6\n"));
}

#[test]
fn keeping_matches_in_order() {
    assert_eq!(pids(&keep_matching(sample(), "fire")), vec![20, 40]);
    assert_eq!(pids(&keep_matching(sample(), "")), vec![10, 20, 30, 40, 50, 60]);
    assert_eq!(pids(&keep_matching(sample(), "FIRE")), Vec::<u32>::new());
    assert_eq!(pids(&keep_matching(sample(), "x")), vec![20, 60]);
}

#[test]
fn finding_many_processes_shows_twenty() {
    let entries: Vec<ProcessEntry> =
        (0..23).map(|i| proc(i, "worker", i as f32, 1024)).collect();
    let text = build_find_report(&FindProcessParams { name: String::from("work") }, entries);
    assert_eq!(text.matches("worker\n").count(), 20);
    assert!(text.contains(&row(22, 22.0, "1.0 KB", "worker")));
    assert!(text.contains(&row(3, 3.0, "1.0 KB", "worker")));
    assert!(!text.contains(&row(2, 2.0, "1.0 KB", "worker")));
    assert!(text.ends_with("\n... and 3 more matches\n\nTotal matches: 23\n"));
    let twenty: Vec<ProcessEntry> = (0..20).map(|i| proc(i, "worker", 1.0, 1024)).collect();
    let text = report_matches("w", &twenty);
    assert_eq!(text.matches("worker\n").count(), 20);
    assert!(!text.contains("more matches"));
    assert!(text.ends_with("\nTotal matches: 20\n"));
}

#[test]
fn listing_all_processes() {
    let server = SysinfoServer::new();
    let text = server.list_processes(sample());
    let expected = String::from("All Running Processes:\n\n")
        + &header()
        + &rule(60)
        + &row(30, 99.9, "1.0 MB", "rustc")
        + &row(20, 12.5, "3.0 GB", "firefox")
        + &row(40, 12.5, "2.0 KB", "FireWall")
        + &row(60, 3.0, "3.0 GB", "Xorg")
        + &row(50, 0.1, "512 B", "bash")
        + &row(10, 0.0, "4.0 KB", "init")
        + "\nTotal processes: 6\n";
    assert_eq!(text, expected);
    let many: Vec<ProcessEntry> = (0..53).map(|i| proc(i, "p", i as f32, 0)).collect();
    let text = build_listing_report(many);
    assert_eq!(text.matches(" p\n").count(), 50);
    assert!(text.ends_with("\n... and 3 more processes\n\nTotal processes: 53\n"));
    assert_eq!(
        build_listing_report(vec![]),
        String::from("All Running Processes:\n\n") + &header() + &rule(60) + "\nTotal processes: 0\n"
    );
}

fn details() -> ProcessDetails {
    ProcessDetails {
        name: String::from("sleep"),
        status: String::from("Sleep"),
        cpu: String::from("0.0"),
        memory: 2 * 1048576,
        virtual_memory: 5 * 1073741824,
        parent: Some(1),
        run_time: 3725,
        exe: Some(String::from("/usr/bin/sleep")),
        cwd: Some(String::from("/home/me")),
        cmd: vec![String::from("sleep"), String::from("1000")],
    }
}

#[test]
fn process_details_in_full() {
    let server = SysinfoServer::new();
    assert_eq!(
        server.get_process_details(&ProcessIdParams { pid: 4242 }, Some(&details())),
        Ok(String::from(
            "Process Details (PID 4242):\n\nName: sleep\nStatus: Sleep\nCPU Usage: 0.0%\nMemory: 2.0 MB\nVirtual Memory: 5.0 GB\nParent PID: 1\nRunning for: 1h 2m\nExecutable: /usr/bin/sleep\nWorking Dir: /home/me\nCommand: sleep 1000\n"
        ))
    );
}

#[test]
fn process_details_with_little_known() {
    let mut d = details();
    d.parent = None;
    d.exe = None;
    d.cwd = None;
    d.cmd = vec![];
    assert_eq!(
        build_details_report(&ProcessIdParams { pid: 7 }, Some(&d)),
        Ok(String::from(
            "Process Details (PID 7):\n\nName: sleep\nStatus: Sleep\nCPU Usage: 0.0%\nMemory: 2.0 MB\nVirtual Memory: 5.0 GB\nRunning for: 1h 2m\n"
        ))
    );
    assert_eq!(
        build_details_report(&ProcessIdParams { pid: 7 }, None),
        Err(String::from("Process 7 not found"))
    );
}

#[test]
fn long_command_lines_are_cut() {
    let mut d = details();
    d.cmd = vec![String::from("a").repeat(150), String::from("b").repeat(60)];
    let text = build_details_report(&ProcessIdParams { pid: 7 }, Some(&d)).unwrap();
    let expected =
        format!("Command: {} {}...\n", "a".repeat(150), "b".repeat(49));
    assert!(text.ends_with(&expected));
    d.cmd = vec![String::from("a").repeat(150), String::from("b").repeat(49)];
    let text = build_details_report(&ProcessIdParams { pid: 7 }, Some(&d)).unwrap();
    let expected = format!("Command: {} {}\n", "a".repeat(150), "b".repeat(49));
    assert!(text.ends_with(&expected));
}

fn disk(name: &str, total: u64, available: u64) -> DiskInfo {
    DiskInfo {
        name: String::from(name),
        file_system: String::from("ext4"),
        mount_point: format!("/mnt/{}", name),
        total_space: total,
        available_space: available,
    }
}

#[test]
fn disk_totals_add_up_and_saturate() {
    assert_eq!(disk_totals(&vec![]), (0, 0));
    assert_eq!(
        disk_totals(&vec![disk("a", 100, 40), disk("b", 0, 0), disk("c", 50, 50)]),
        (150, 90)
    );
    assert_eq!(
        disk_totals(&vec![disk("a", u64::MAX - 1, 5), disk("b", 7, u64::MAX)]),
        (u64::MAX, u64::MAX)
    );
}

#[test]
fn disk_report_per_filesystem() {
    let server = SysinfoServer::new();
    let disks = vec![
        disk("sda1", 4 * 1073741824, 1073741824),
        disk("empty", 0, 0),
        disk("odd", 1000, 2000),
    ];
    assert_eq!(
        server.get_disk_info(&disks),
        "Disk Usage:\n\nsda1 (ext4)\n  3.0 GB / 4.0 GB (75% used)\n  Mount: /mnt/sda1\n\nempty (ext4)\n  0 B / 0 B (0% used)\n  Mount: /mnt/empty\n\nodd (ext4)\n  0 B / 1000 B (0% used)\n  Mount: /mnt/odd\n\n"
    );
    assert_eq!(build_disk_report(&vec![]), "Disk Usage:\n\n");
}

#[test]
fn system_overview() {
    let server = SysinfoServer::new();
    let sys = SystemSnapshot {
        cpu_name: Some(String::from("Fast CPU")),
        cpu_count: 8,
        cpu_usage: String::from("12.3"),
        total_memory: 16 * 1073741824,
        used_memory: 4 * 1073741824 + 1,
        total_swap: 2 * 1073741824,
        used_swap: 0,
        disks: vec![disk("a", 100 * 1073741824, 25 * 1073741824), disk("b", 1073741824, 536870912)],
        uptime_seconds: 3 * 3600 + 25 * 60 + 59,
        load_one: String::from("0.50"),
        load_five: String::from("0.25"),
        load_fifteen: String::from("0.10"),
    };
    assert_eq!(
        server.get_system_info(&sys),
        "System Information:\n\nCPU: Fast CPU (8 cores)\nCPU Usage: 12.3%\n\nMemory: 4.0 GB / 16.0 GB (25%)\nSwap: 0 B / 2.0 GB\n\nDisk: 25.5 GB / 101.0 GB free\n\nUptime: 3h 25m\nLoad Average: 0.50 0.25 0.10 (1m 5m 15m)"
    );
    let bare = SystemSnapshot {
        cpu_name: None,
        cpu_count: 0,
        cpu_usage: String::from("NaN"),
        total_memory: 0,
        used_memory: 0,
        total_swap: 0,
        used_swap: 0,
        disks: vec![],
        uptime_seconds: 59,
        load_one: String::from("0.00"),
        load_five: String::from("0.00"),
        load_fifteen: String::from("0.00"),
    };
    assert_eq!(
        build_system_report(&bare),
        "System Information:\n\nCPU: Unknown (0 cores)\nCPU Usage: NaN%\n\nMemory: 0 B / 0 B (0%)\nSwap: 0 B / 0 B\n\nDisk: 0 B / 0 B free\n\nUptime: 0h 0m\nLoad Average: 0.00 0.00 0.00 (1m 5m 15m)"
    );
}

#[test]
fn process_parameters_from_arguments() {
    let schema = TopProcessesParams::schema();
    assert_eq!(schema.len(), 2);
    let args = validate(&schema, &RawArguments::new()).unwrap();
    assert_eq!(
        TopProcessesParams::from_arguments(&args),
        TopProcessesParams { count: None, sort_by: None }
    );
    let mut raw = RawArguments::new();
    raw.insert(String::from("count"), RawValue::Integer(3));
    raw.insert(String::from("sort_by"), RawValue::Text(String::from("mem")));
    let args = validate(&schema, &raw).unwrap();
    assert_eq!(
        TopProcessesParams::from_arguments(&args),
        TopProcessesParams { count: Some(3), sort_by: Some(String::from("mem")) }
    );
    raw.insert(String::from("count"), RawValue::Text(String::from("three")));
    let e = validate(&schema, &raw).unwrap_err();
    assert_eq!(e.field, "count");
    assert_eq!(e.reason, Reason::WrongType);

    let mut raw = RawArguments::new();
    raw.insert(String::from("name"), RawValue::Text(String::from("fox")));
    let args = validate(&FindProcessParams::schema(), &raw).unwrap();
    assert_eq!(
        FindProcessParams::from_arguments(&args),
        Some(FindProcessParams { name: String::from("fox") })
    );
    assert_eq!(ProcessIdParams::from_arguments(&args), None);

    let mut raw = RawArguments::new();
    raw.insert(String::from("pid"), RawValue::Integer(4294967295));
    let args = validate(&ProcessIdParams::schema(), &raw).unwrap();
    assert_eq!(ProcessIdParams::from_arguments(&args), Some(ProcessIdParams { pid: u32::MAX }));
    assert_eq!(FindProcessParams::from_arguments(&args), None);
    raw.insert(String::from("pid"), RawValue::Integer(4294967296));
    let e = validate(&ProcessIdParams::schema(), &raw).unwrap_err();
    assert_eq!(e.reason, Reason::OutOfRange);
    let mut raw = RawArguments::new();
    raw.insert(String::from("count"), RawValue::Integer(4294967296));
    let args = validate(&TopProcessesParams::schema(), &raw).unwrap();
    assert_eq!(ProcessIdParams::from_arguments(&args), None);
}
