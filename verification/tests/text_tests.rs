use sensor_tools::text::{
    decimal_string, has_prefix, hexadecimal_string, join_texts, parse_u32, push_decimal,
    push_digit, push_hexadecimal, push_optional_line, push_padded_right, push_repeated,
    push_signed_decimal, push_zero_padded, same_text, text_contains,
};
use sensor_tools::units::{
    disk_usage_percent, floor_percent, format_bytes, format_duration, push_bytes, push_duration,
    space_in_use, tenths,
};

#[test]
fn decimal_numerals() {
    assert_eq!(decimal_string(0), "0");
    assert_eq!(decimal_string(7), "7");
    assert_eq!(decimal_string(10), "10");
    assert_eq!(decimal_string(12345), "12345");
    assert_eq!(decimal_string(1000000), "1000000");
    assert_eq!(decimal_string(u64::MAX), "18446744073709551615");
    for n in [0u64, 9, 99, 100, 101, 4096, 65535, 4294967296, 999999999999] {
        assert_eq!(decimal_string(n), format!("{}", n));
    }
}

#[test]
fn hexadecimal_numerals() {
    assert_eq!(hexadecimal_string(0), "0");
    assert_eq!(hexadecimal_string(10), "a");
    assert_eq!(hexadecimal_string(255), "ff");
    assert_eq!(hexadecimal_string(0x1d6b), "1d6b");
    assert_eq!(hexadecimal_string(u64::MAX), "ffffffffffffffff");
    for n in [1u64, 15, 16, 17, 4095, 4096, 65535, 0xdeadbeef] {
        assert_eq!(hexadecimal_string(n), format!("{:x}", n));
    }
}

#[test]
fn signed_numerals() {
    for n in [0i64, 1, -1, 42, -42, i64::MAX, i64::MIN, -9223372036854775807] {
        let mut out = String::from(">");
        push_signed_decimal(&mut out, n);
        assert_eq!(out, format!(">{}", n));
    }
}

#[test]
fn pushing_appends_to_what_is_there() {
    let mut out = String::from("n=");
    push_decimal(&mut out, 305);
    out.push_str(" x=");
    push_hexadecimal(&mut out, 305);
    out.push(' ');
    push_digit(&mut out, 11);
    push_digit(&mut out, 3);
    assert_eq!(out, "n=305 x=131 b3");
}

#[test]
fn padding_on_the_right_and_with_zeros() {
    let mut out = String::new();
    push_padded_right(&mut out, "PID", 8);
    out.push('|');
    push_padded_right(&mut out, "exactly8", 8);
    out.push('|');
    push_padded_right(&mut out, "longer than", 4);
    out.push('|');
    push_padded_right(&mut out, "é", 3);
    out.push('|');
    assert_eq!(out, format!("{:<8}|{:<8}|{:<4}|{:<3}|", "PID", "exactly8", "longer than", "é"));
    let mut out = String::new();
    push_zero_padded(&mut out, "7", 2);
    out.push(':');
    push_zero_padded(&mut out, "12", 2);
    out.push(':');
    push_zero_padded(&mut out, "123", 2);
    out.push(':');
    push_zero_padded(&mut out, "ab", 4);
    assert_eq!(out, "07:12:123:00ab");
    let mut out = String::from("[");
    push_repeated(&mut out, "-", 5);
    push_repeated(&mut out, "=", 0);
    out.push(']');
    assert_eq!(out, "[-----]");
}

#[test]
fn optional_lines_are_there_only_with_a_value() {
    let mut out = String::new();
    push_optional_line(&mut out, "  A: ", &Some(String::from("1")), " u\n");
    push_optional_line(&mut out, "  B: ", &None, " u\n");
    push_optional_line(&mut out, "  C: ", &Some(String::new()), "\n");
    assert_eq!(out, "  A: 1 u\n  C: \n");
}

#[test]
fn parsing_unsigned_numbers() {
    assert_eq!(parse_u32("0"), Some(0));
    assert_eq!(parse_u32("300"), Some(300));
    assert_eq!(parse_u32("2100"), Some(2100));
    assert_eq!(parse_u32("+5"), Some(5));
    assert_eq!(parse_u32("007"), Some(7));
    assert_eq!(parse_u32("4294967295"), Some(u32::MAX));
    assert_eq!(parse_u32("4294967296"), None);
    assert_eq!(parse_u32("99999999999999999999999999"), None);
    assert_eq!(parse_u32("00000000000000000000000001"), Some(1));
    assert_eq!(parse_u32(""), None);
    assert_eq!(parse_u32("+"), None);
    assert_eq!(parse_u32("-1"), None);
    assert_eq!(parse_u32("-0"), None);
    assert_eq!(parse_u32("12a"), None);
    assert_eq!(parse_u32(" 12"), None);
    assert_eq!(parse_u32("1 "), None);
    assert_eq!(parse_u32("++1"), None);
    assert_eq!(parse_u32("١٢"), None);
    for s in ["0", "12", "+12", "-12", "", "+", "4294967295", "4294967296", "1e3", "0x10", "99999999999"] {
        assert_eq!(parse_u32(s), s.parse::<u32>().ok(), "{:?}", s);
    }
}

#[test]
fn comparing_and_searching_texts() {
    assert!(same_text("abc", "abc"));
    assert!(!same_text("abc", "abd"));
    assert!(!same_text("abc", "ab"));
    assert!(same_text("", ""));
    assert!(has_prefix("fe80::1", "fe80"));
    assert!(!has_prefix("fe8", "fe80"));
    assert!(!has_prefix("2001:db8::fe80", "fe80"));
    assert!(has_prefix("anything", ""));
    assert!(has_prefix("fe80", "fe80"));
    assert!(text_contains("firefox", "fox"));
    assert!(text_contains("firefox", "fire"));
    assert!(text_contains("firefox", "firefox"));
    assert!(text_contains("firefox", ""));
    assert!(text_contains("", ""));
    assert!(!text_contains("firefox", "firefoxx"));
    assert!(!text_contains("firefox", "Fox"));
    assert!(!text_contains("", "a"));
    assert!(text_contains("naïve café", "ve ca"));
    assert!(text_contains("aab", "ab"));
}

#[test]
fn joining_texts() {
    assert_eq!(join_texts(&vec![], " "), "");
    assert_eq!(join_texts(&vec![String::from("ls")], " "), "ls");
    assert_eq!(
        join_texts(&vec![String::from("ls"), String::from("-l"), String::from("/tmp")], " "),
        "ls -l /tmp"
    );
    assert_eq!(join_texts(&vec![String::new(), String::new()], ", "), ", ");
}

#[test]
fn durations_in_two_units() {
    assert_eq!(format_duration(0), "0s");
    assert_eq!(format_duration(59), "59s");
    assert_eq!(format_duration(60), "1m");
    assert_eq!(format_duration(61), "1m 1s");
    assert_eq!(format_duration(299), "4m 59s");
    assert_eq!(format_duration(300), "5m");
    assert_eq!(format_duration(3599), "59m 59s");
    assert_eq!(format_duration(3600), "1h");
    assert_eq!(format_duration(3659), "1h");
    assert_eq!(format_duration(3660), "1h 1m");
    assert_eq!(format_duration(7325), "2h 2m");
    assert_eq!(format_duration(86400), "24h");
    assert_eq!(format_duration(u64::MAX), "5124095576030431h");
    assert_eq!(format_duration(u64::MAX - 15 - 3540), "5124095576030430h 1m");
    let mut out = String::from("up ");
    push_duration(&mut out, 90);
    assert_eq!(out, "up 1m 30s");
}

fn float_bytes(bytes: u64) -> String {
    const KB: u64 = 1024;
    const MB: u64 = KB * 1024;
    const GB: u64 = MB * 1024;
    if bytes >= GB {
        format!("{:.1} GB", bytes as f64 / GB as f64)
    } else if bytes >= MB {
        format!("{:.1} MB", bytes as f64 / MB as f64)
    } else if bytes >= KB {
        format!("{:.1} KB", bytes as f64 / KB as f64)
    } else {
        format!("{} B", bytes)
    }
}

#[test]
fn byte_counts_in_binary_units() {
    assert_eq!(format_bytes(0), "0 B");
    assert_eq!(format_bytes(1023), "1023 B");
    assert_eq!(format_bytes(1024), "1.0 KB");
    assert_eq!(format_bytes(1536), "1.5 KB");
    assert_eq!(format_bytes(1048575), "1024.0 KB");
    assert_eq!(format_bytes(1048576), "1.0 MB");
    assert_eq!(format_bytes(1073741824), "1.0 GB");
    assert_eq!(format_bytes(8 * 1073741824 + 805306368), "8.8 GB");
    assert_eq!(format_bytes(17179869184), "16.0 GB");
    let mut out = String::from("used ");
    push_bytes(&mut out, 2560);
    assert_eq!(out, "used 2.5 KB");
}

#[test]
fn byte_counts_round_as_floating_point_formatting_does() {
    let mut samples: Vec<u64> = vec![
        0, 1, 1023, 1024, 1025, 1075, 1076, 1126, 1127, 1280, 1331, 1332, 1433, 1434, 1536,
        2047, 2048, 10000, 65536, 1048575, 1048576, 1048577, 1100000, 1153433, 1153434,
        5 * 1048576 + 52428, 5 * 1048576 + 52429, 1073741823, 1073741824, 1073741825,
        1127428915, 1127428916, 3 * 1073741824 + 268435456, 500107862016, 1 << 40, (1 << 50) + 12345,
    ];
    let mut x: u64 = 88172645463325252;
    for _ in 0..2000 {
        x ^= x << 13;
        x ^= x >> 7;
        x ^= x << 17;
        samples.push(x % (1 << 20));
        samples.push(x % (1 << 31));
        samples.push(x % (1 << 44));
    }
    for q in 0..200u64 {
        samples.push(1024 * (2 * q + 1) / 20 * 1);
        samples.push((2 * q + 1) * 1048576 / 20);
        samples.push((2 * q + 1) * 1073741824 / 20);
        samples.push(256 * (2 * q + 1));
    }
    for b in samples {
        assert_eq!(format_bytes(b), float_bytes(b), "{}", b);
    }
}

#[test]
fn tenths_round_to_nearest_and_ties_to_even() {
    assert_eq!(tenths(1024, 1024), 10);
    assert_eq!(tenths(1280, 1024), 12);
    assert_eq!(tenths(1281, 1024), 13);
    assert_eq!(tenths(1279, 1024), 12);
    assert_eq!(tenths(1792, 1024), 18);
    assert_eq!(tenths(1791, 1024), 17);
    assert_eq!(tenths(0, 10), 0);
    assert_eq!(tenths(u64::MAX, 1073741824), 171798691840);
}

#[test]
fn disk_usage_is_a_percentage() {
    assert_eq!(disk_usage_percent(0, 0), 0);
    assert_eq!(disk_usage_percent(0, 500), 0);
    assert_eq!(disk_usage_percent(1000, 250), 75);
    assert_eq!(disk_usage_percent(1000, 0), 100);
    assert_eq!(disk_usage_percent(1000, 1000), 0);
    assert_eq!(disk_usage_percent(1000, 2000), 0);
    assert_eq!(disk_usage_percent(3, 1), 67);
    assert_eq!(disk_usage_percent(3, 2), 33);
    assert_eq!(disk_usage_percent(200, 199), 1);
    assert_eq!(disk_usage_percent(1000, 996), 0);
    assert_eq!(disk_usage_percent(1000, 995), 1);
    assert_eq!(disk_usage_percent(u64::MAX, 0), 100);
    assert_eq!(disk_usage_percent(u64::MAX, 1), 100);
    assert_eq!(disk_usage_percent(u64::MAX, u64::MAX / 2), 50);
    let mut x: u64 = 2463534242;
    for _ in 0..5000 {
        x ^= x << 13;
        x ^= x >> 7;
        x ^= x << 17;
        let total = x % 100000;
        let available = (x >> 20) % 120000;
        let p = disk_usage_percent(total, available);
        assert!(p <= 100);
        if total == 0 {
            assert_eq!(p, 0);
        }
    }
}

#[test]
fn space_in_use_never_goes_below_zero() {
    assert_eq!(space_in_use(10, 3), 7);
    assert_eq!(space_in_use(10, 10), 0);
    assert_eq!(space_in_use(10, 11), 0);
    assert_eq!(space_in_use(0, 0), 0);
}

#[test]
fn shares_rounded_down() {
    assert_eq!(floor_percent(0, 0), 0);
    assert_eq!(floor_percent(5, 0), 0);
    assert_eq!(floor_percent(29, 100), 29);
    assert_eq!(floor_percent(1, 3), 33);
    assert_eq!(floor_percent(2, 3), 66);
    assert_eq!(floor_percent(8, 16), 50);
    assert_eq!(floor_percent(16, 16), 100);
    assert_eq!(floor_percent(32, 16), 200);
    assert_eq!(floor_percent(u64::MAX, 1), u64::MAX);
}
