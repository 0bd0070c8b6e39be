use tynkerbase_agent::diagnostics::{get_cpu_data, get_mem_data, parse_count, split_lines, trim};
use tynkerbase_agent::text::{contains, dec_string, find, same_text, split_once, starts_with};

const LSCPU: &str = "Architecture:            x86_64\n  CPU op-mode(s):        32-bit, 64-bit\nCPU(s):                  8\n  On-line CPU(s) list:   0-7\n  Model name:            AMD Ryzen 7 5800U\nL1d:                     256 KiB (8 instances)\nL1i:                     256 KiB (8 instances)\nL2:                      4 MiB (8 instances)\nL3:                      16 MiB (1 instance)\nNUMA node0 CPU(s):       0-7\n";

#[test]
fn lscpu_fields() {
    let info = get_cpu_data(LSCPU);
    assert_eq!(info.cpu_arc.as_deref(), Some("x86_64"));
    assert_eq!(info.hardware_threads, Some(8));
    assert_eq!(info.cpu.as_deref(), Some("AMD Ryzen 7 5800U"));
    assert_eq!(info.l1_cache_d.as_deref(), Some("256 KiB (8 instances)"));
    assert_eq!(info.l1_cache_i.as_deref(), Some("256 KiB (8 instances)"));
    assert_eq!(info.l2_cache.as_deref(), Some("4 MiB (8 instances)"));
    assert_eq!(info.l3_cache.as_deref(), Some("16 MiB (1 instance)"));
}

#[test]
fn lscpu_empty() {
    let info = get_cpu_data("");
    assert!(info.cpu_arc.is_none() && info.hardware_threads.is_none() && info.cpu.is_none());
}

#[test]
fn lscpu_bad_thread_count_is_skipped() {
    let info = get_cpu_data("CPU(s): 4\nCPU(s): many\nArchitecture\n");
    assert_eq!(info.hardware_threads, Some(4));
    assert!(info.cpu_arc.is_none());
}

#[test]
fn meminfo_fields() {
    let text = "MemTotal:       16303428 kB\nMemFree:         1234567 kB\nMemAvailable:    9000000 kB\n";
    let m = get_mem_data(text);
    assert_eq!(m.mem_total_kb, Some(16303428));
    assert_eq!(m.mem_free_kb, Some(1234567));
}

#[test]
fn meminfo_malformed() {
    let m = get_mem_data("MemTotal: lots\nMemFree 5 kB\n");
    assert_eq!(m.mem_total_kb, None);
    assert_eq!(m.mem_free_kb, None);
}

#[test]
fn counts() {
    assert_eq!(parse_count("42"), Some(42));
    assert_eq!(parse_count("007"), Some(7));
    assert_eq!(parse_count(""), None);
    assert_eq!(parse_count("4a"), None);
    assert_eq!(parse_count("-1"), None);
    assert_eq!(parse_count("18446744073709551615"), Some(usize::MAX).filter(|_| usize::BITS == 64));
    assert_eq!(parse_count("18446744073709551616"), None);
    assert_eq!(parse_count("99999999999999999999x"), None);
}

#[test]
fn trimming_and_lines() {
    assert_eq!(trim("  a b \t\r"), "a b");
    assert_eq!(trim("   "), "");
    assert_eq!(trim(""), "");
    assert_eq!(split_lines("a\nb\n"), vec!["a", "b", ""]);
    assert_eq!(split_lines(""), vec![""]);
    assert_eq!(split_lines("one"), vec!["one"]);
}

#[test]
fn text_helpers() {
    assert_eq!(find("hello world", "o"), Some(4));
    assert_eq!(find("hello", "xyz"), None);
    assert_eq!(find("abc", ""), Some(0));
    assert!(contains("No such image: x", "No such image"));
    assert_eq!(split_once("k: v: w", ": "), Some(("k", "v: w")));
    assert_eq!(split_once("kv", ":"), None);
    assert!(starts_with("Architecture: x", "Arch"));
    assert!(!starts_with("Ar", "Arch"));
    assert!(same_text("é", "é") && !same_text("a", "ab"));
    assert_eq!(dec_string(0), "0");
    assert_eq!(dec_string(65535), "65535");
    assert_eq!(dec_string(7462), "7462");
}
