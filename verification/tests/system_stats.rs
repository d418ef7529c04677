use glass::system_stats::format_memory_text;

#[test]
fn memory_formatting_zero_total_shows_na() {
    let text = format_memory_text(0, 0);
    assert_eq!(
        text, "system: RAM N/A",
        "zero total memory should produce 'system: RAM N/A'"
    );
}

#[test]
fn memory_formatting_exact_gib_values() {
    // 8 GiB used, 16 GiB total
    let used = 8u64 * 1024 * 1024 * 1024;
    let total = 16u64 * 1024 * 1024 * 1024;
    let text = format_memory_text(used, total);
    assert!(
        text.contains("8.0/16.0 GiB"),
        "exact GiB values should format cleanly: {text}"
    );
    assert!(
        text.starts_with("system: RAM "),
        "must carry 'system: RAM' prefix: {text}"
    );
}

#[test]
fn memory_formatting_zero_used_nonzero_total() {
    let total = 4u64 * 1024 * 1024 * 1024;
    let text = format_memory_text(0, total);
    assert!(
        text.contains("0.0/4.0 GiB"),
        "zero used with nonzero total should format: {text}"
    );
}

// ── Further cases ───────────────────────────────────────────────────────────

fn float_reference(used: u64, total: u64) -> String {
    let used_gib = used as f64 / (1024.0 * 1024.0 * 1024.0);
    let total_gib = total as f64 / (1024.0 * 1024.0 * 1024.0);
    format!("system: RAM {:.1}/{:.1} GiB", used_gib, total_gib)
}

#[test]
fn memory_formatting_exact_text() {
    let gib = 1024u64 * 1024 * 1024;
    assert_eq!(format_memory_text(gib / 2, 3 * gib), "system: RAM 0.5/3.0 GiB");
    assert_eq!(format_memory_text(12 * gib + gib / 4 * 3, 32 * gib), "system: RAM 12.8/32.0 GiB");
    assert_eq!(format_memory_text(1, 1), "system: RAM 0.0/0.0 GiB");
}

#[test]
fn memory_formatting_matches_float_formatting() {
    let gib = 1024u64 * 1024 * 1024;
    let mut cases: Vec<u64> = vec![
        0,
        1,
        gib / 4,          // 0.25: a tie between 0.2 and 0.3
        gib / 4 * 3,      // 0.75: a tie between 0.7 and 0.8
        gib / 20,
        gib / 20 + 1,
        gib - 1,
        gib,
        gib + gib / 2,
        17 * gib / 4,
        (1u64 << 53) - 1,
    ];
    let mut x: u64 = 0x9E37_79B9_7F4A_7C15;
    for _ in 0..2000 {
        x ^= x << 13;
        x ^= x >> 7;
        x ^= x << 17;
        cases.push(x % (1u64 << 40));
    }
    for &used in &cases {
        for &total in &[1u64, gib, 64 * gib + 123] {
            assert_eq!(format_memory_text(used, total), float_reference(used, total), "used={used}");
        }
    }
}
