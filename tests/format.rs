use dirsize::format::format_size;

#[test]
fn format_size_unit_boundaries() {
    assert_eq!(format_size(0), "0 B");
    assert_eq!(format_size(1023), "1023 B");
    assert_eq!(format_size(1024), "1.00 KB");
    assert_eq!(format_size(1024 * 1024), "1.00 MB");
    assert_eq!(format_size(1024 * 1024 * 1024), "1.00 GB");
}

#[test]
fn format_size_just_below_each_unit() {
    assert_eq!(format_size(1024 * 1024 - 1), "1024.00 KB");
    assert_eq!(format_size(1024 * 1024 * 1024 - 1), "1024.00 MB");
    assert_eq!(format_size(1536), "1.50 KB");
    assert_eq!(format_size(10 * 1024 * 1024 + 512 * 1024), "10.50 MB");
}

#[test]
fn format_size_largest_value() {
    assert_eq!(format_size(u64::MAX), "17179869184.00 GB");
}

#[test]
fn format_size_ties_round_to_even() {
    // 1152 bytes are exactly 1.125 KB; 1184 bytes are 1.15625 KB, no tie.
    assert_eq!(format_size(1152), "1.12 KB");
    assert_eq!(format_size(1184), "1.16 KB");
}

fn float_text(bytes: u64) -> String {
    let kb = 1024u64;
    let mb = kb * 1024;
    let gb = mb * 1024;
    if bytes >= gb {
        format!("{:.2} GB", bytes as f64 / gb as f64)
    } else if bytes >= mb {
        format!("{:.2} MB", bytes as f64 / mb as f64)
    } else if bytes >= kb {
        format!("{:.2} KB", bytes as f64 / kb as f64)
    } else {
        format!("{} B", bytes)
    }
}

#[test]
fn format_size_agrees_with_float_formatting() {
    for bytes in 0..300_000u64 {
        assert_eq!(format_size(bytes), float_text(bytes), "{}", bytes);
    }
    let mut bytes: u64 = 1;
    while bytes < (1u64 << 53) {
        for delta in 0..64u64 {
            let b = bytes + delta;
            assert_eq!(format_size(b), float_text(b), "{}", b);
        }
        bytes = bytes * 3 + 7;
    }
}
