use sensor_tools::git::{
    bucket_changes, build_log_report, build_status_report, classify, push_commit_section,
    push_date, push_short_id, shown_path, Bucket, CommitInfo, GitServer, HeadState, RepoPathParams,
    RepoSnapshot, StatusEntry, WorkingTree,
};
use sensor_tools::schema::{validate, RawArguments, RawValue, Reason};

fn entry(path: &str, flags: &str) -> StatusEntry {
    StatusEntry {
        path: Some(String::from(path)),
        index_new: flags.contains("A"),
        index_modified: flags.contains("M"),
        index_deleted: flags.contains("D"),
        wt_new: flags.contains("?"),
        wt_modified: flags.contains("m"),
        wt_deleted: flags.contains("d"),
    }
}

fn commit(id: &str, summary: Option<&str>, author: Option<&str>, seconds: i64) -> CommitInfo {
    CommitInfo {
        id: String::from(id),
        summary: summary.map(String::from),
        author: author.map(String::from),
        seconds,
    }
}

#[test]
fn each_entry_falls_into_one_bucket_by_precedence() {
    assert_eq!(classify(&entry("a", "A")), Some(Bucket::Staged));
    assert_eq!(classify(&entry("a", "M")), Some(Bucket::Staged));
    assert_eq!(classify(&entry("a", "D")), Some(Bucket::Staged));
    assert_eq!(classify(&entry("a", "m")), Some(Bucket::Modified));
    assert_eq!(classify(&entry("a", "d")), Some(Bucket::Modified));
    assert_eq!(classify(&entry("a", "?")), Some(Bucket::Untracked));
    assert_eq!(classify(&entry("a", "")), None);
    assert_eq!(classify(&entry("a", "Mm")), Some(Bucket::Staged));
    assert_eq!(classify(&entry("a", "A?")), Some(Bucket::Staged));
    assert_eq!(classify(&entry("a", "m?")), Some(Bucket::Modified));
    assert_eq!(classify(&entry("a", "AMD?md")), Some(Bucket::Staged));
}

#[test]
fn buckets_keep_the_order_of_the_listing() {
    let entries = vec![
        entry("z.rs", "?"),
        entry("b.rs", "M"),
        entry("c.rs", "m"),
        entry("a.rs", "Am"),
        entry("ignored.o", ""),
        entry("y.rs", "?"),
        entry("d.rs", "d"),
        StatusEntry { path: None, ..entry("", "D") },
    ];
    let buckets = bucket_changes(&entries);
    assert_eq!(buckets.staged, vec!["b.rs", "a.rs", "?"]);
    assert_eq!(buckets.modified, vec!["c.rs", "d.rs"]);
    assert_eq!(buckets.untracked, vec!["z.rs", "y.rs"]);
    assert_eq!(shown_path(&entries[0]), "z.rs");
    assert_eq!(shown_path(&entries[7]), "?");
    let none = bucket_changes(&vec![]);
    assert!(none.staged.is_empty() && none.modified.is_empty() && none.untracked.is_empty());
}

#[test]
fn short_ids_have_seven_characters_at_most() {
    let mut out = String::new();
    push_short_id(&mut out, &String::from("0123456789abcdef0123456789abcdef01234567"));
    out.push('|');
    push_short_id(&mut out, &String::from("0123456"));
    out.push('|');
    push_short_id(&mut out, &String::from("abc"));
    out.push('|');
    push_short_id(&mut out, &String::new());
    assert_eq!(out, "0123456|0123456|abc|");
}

#[test]
fn dates_fall_back_to_unknown() {
    let mut out = String::from("Date: ");
    push_date(&mut out, &Some(String::from("2024-05-01 12:30")));
    out.push('|');
    push_date(&mut out, &None);
    assert_eq!(out, "Date: 2024-05-01 12:30|unknown");
}

#[test]
fn commit_section_with_a_given_date() {
    let c = commit("89abcdef0123456789abcdef0123456789abcdef", None, None, 0);
    let mut out = String::new();
    push_commit_section(&mut out, &c, &None);
    assert_eq!(
        out,
        "\nLast Commit:\n  89abcde - (no message)\n  Author: unknown\n  Date: unknown\n"
    );
}

#[test]
fn status_of_a_clean_repository() {
    let server = GitServer::new();
    let repo = RepoSnapshot {
        workdir: Some(String::from("/home/me/project/")),
        head: HeadState::Attached {
            branch: Some(String::from("main")),
            commit: Some(commit(
                "89abcdef0123456789abcdef0123456789abcdef",
                Some("Fix the frobnicator"),
                Some("Ada"),
                1431648000,
            )),
        },
        tree: WorkingTree::Listed(vec![]),
    };
    assert_eq!(
        server.get_status(&repo),
        "Git Repository Status:\n\nRepository: /home/me/project/\nBranch: main\n\nLast Commit:\n  89abcde - Fix the frobnicator\n  Author: Ada\n  Date: 2015-05-15 00:00\n\nWorking Tree:\n  Clean - nothing to commit\n"
    );
}

#[test]
fn commit_times_are_shown_in_utc_to_the_minute() {
    let at = |seconds: i64| {
        let repo = RepoSnapshot {
            workdir: None,
            head: HeadState::Attached {
                branch: None,
                commit: Some(commit("0000000", Some("s"), Some("a"), seconds)),
            },
            tree: WorkingTree::Unavailable(String::from("x")),
        };
        let text = build_status_report(&repo);
        let start = text.find("  Date: ").unwrap() + 8;
        let end = text[start..].find('\n').unwrap() + start;
        String::from(&text[start..end])
    };
    assert_eq!(at(0), "1970-01-01 00:00");
    assert_eq!(at(59), "1970-01-01 00:00");
    assert_eq!(at(60), "1970-01-01 00:01");
    assert_eq!(at(-1), "1969-12-31 23:59");
    assert_eq!(at(1700000000), "2023-11-14 22:13");
    assert_eq!(at(951782400), "2000-02-29 00:00");
    assert_eq!(at(i64::MAX), "unknown");
    assert_eq!(at(i64::MIN), "unknown");
}

#[test]
fn status_without_commits() {
    let repo = RepoSnapshot {
        workdir: None,
        head: HeadState::Unborn,
        tree: WorkingTree::Listed(vec![entry("README.md", "?")]),
    };
    assert_eq!(
        build_status_report(&repo),
        "Git Repository Status:\n\nBranch: (no commits yet)\n\nWorking Tree:\n  Untracked: 1 file(s)\n    ? README.md\n"
    );
}

#[test]
fn status_with_a_detached_head_and_no_status() {
    let repo = RepoSnapshot {
        workdir: Some(String::from("/r/")),
        head: HeadState::Attached { branch: None, commit: None },
        tree: WorkingTree::Unavailable(String::from("index is locked")),
    };
    assert_eq!(
        build_status_report(&repo),
        "Git Repository Status:\n\nRepository: /r/\n\nCould not get status: index is locked\n"
    );
}

#[test]
fn status_caps_each_bucket_at_five_entries() {
    let mut entries = Vec::new();
    for i in 0..7 {
        entries.push(entry(&format!("s{}.rs", i), "A"));
    }
    for i in 0..5 {
        entries.push(entry(&format!("m{}.rs", i), "m"));
    }
    for i in 0..6 {
        entries.push(entry(&format!("u{}.rs", i), "?"));
    }
    let repo = RepoSnapshot {
        workdir: None,
        head: HeadState::Unborn,
        tree: WorkingTree::Listed(entries),
    };
    assert_eq!(
        build_status_report(&repo),
        "Git Repository Status:\n\nBranch: (no commits yet)\n\nWorking Tree:\n  Staged: 7 file(s)\n    + s0.rs\n    + s1.rs\n    + s2.rs\n    + s3.rs\n    + s4.rs\n    ... and 2 more\n  Modified: 5 file(s)\n    M m0.rs\n    M m1.rs\n    M m2.rs\n    M m3.rs\n    M m4.rs\n  Untracked: 6 file(s)\n    ? u0.rs\n    ? u1.rs\n    ? u2.rs\n    ? u3.rs\n    ? u4.rs\n    ... and 1 more\n"
    );
}

#[test]
fn status_lists_a_path_in_one_bucket_only() {
    let repo = RepoSnapshot {
        workdir: None,
        head: HeadState::Unborn,
        tree: WorkingTree::Listed(vec![entry("both.rs", "Mm"), entry("only.rs", "m")]),
    };
    assert_eq!(
        build_status_report(&repo),
        "Git Repository Status:\n\nBranch: (no commits yet)\n\nWorking Tree:\n  Staged: 1 file(s)\n    + both.rs\n  Modified: 1 file(s)\n    M only.rs\n"
    );
}

#[test]
fn log_of_a_few_commits() {
    let server = GitServer::new();
    let commits = vec![
        commit("1111111aaaaaaaaaaaaaaaaaaaaaaaaaaaaaaaaa", Some("Third"), Some("Ada"), 3),
        commit("2222222bbbbbbbbbbbbbbbbbbbbbbbbbbbbbbbbb", None, Some("Bob"), 2),
        commit("3333333ccccccccccccccccccccccccccccccccc", Some("First"), None, 1),
    ];
    assert_eq!(
        server.get_log(&commits),
        "Recent Commits:\n\n1111111 Ada - Third\n2222222 Bob - (no message)\n3333333 unknown - First\n"
    );
}

#[test]
fn log_shows_ten_commits_at_most() {
    let commits: Vec<CommitInfo> = (0..13)
        .map(|i| commit(&format!("{:07}ffff", i), Some("s"), Some("a"), i))
        .collect();
    let text = build_log_report(&commits);
    assert_eq!(text.lines().count(), 12);
    assert!(text.contains("0000009 a - s\n"));
    assert!(!text.contains("0000010"));
    assert_eq!(build_log_report(&commits[..10].to_vec()), text);
}

#[test]
fn log_of_nothing() {
    assert_eq!(build_log_report(&vec![]), "Recent Commits:\n\nNo commits found.\n");
}

#[test]
fn repository_parameters_from_arguments() {
    let schema = RepoPathParams::schema();
    assert_eq!(schema.len(), 1);
    assert!(schema.field(0).optional);
    let args = validate(&schema, &RawArguments::new()).unwrap();
    assert_eq!(RepoPathParams::from_arguments(&args), RepoPathParams { path: None });
    let mut raw = RawArguments::new();
    raw.insert(String::from("path"), RawValue::Text(String::from("/tmp/x")));
    let args = validate(&schema, &raw).unwrap();
    assert_eq!(
        RepoPathParams::from_arguments(&args),
        RepoPathParams { path: Some(String::from("/tmp/x")) }
    );
    raw.insert(String::from("path"), RawValue::Integer(3));
    let e = validate(&schema, &raw).unwrap_err();
    assert_eq!(e.field, "path");
    assert_eq!(e.reason, Reason::WrongType);
}
