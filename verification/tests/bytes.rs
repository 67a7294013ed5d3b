use juicer::util::bytes;

/// The formatting as it is written with doubles.
fn with_doubles(bytes: u64) -> String {
    let units = ["b", "kb", "mb", "gb", "tb"];
    let mut value = bytes as f64;
    let mut unit = 0;
    while value >= 1024.0 && unit < units.len() - 1 {
        value /= 1024.0;
        unit += 1;
    }
    format!("{:.2} {}", value, units[unit])
}

#[test]
fn format_bytes() {
    assert_eq!(bytes::format(0), "0.00 b");
    assert_eq!(bytes::format(1), "1.00 b");
    assert_eq!(bytes::format(1023), "1023.00 b");
}

#[test]
fn format_kilobytes() {
    assert_eq!(bytes::format(1024), "1.00 kb");
    assert_eq!(bytes::format(1536), "1.50 kb");
    assert_eq!(bytes::format(1048575), "1024.00 kb");
}

#[test]
fn format_larger_units() {
    assert_eq!(bytes::format(1048576), "1.00 mb");
    assert_eq!(bytes::format(5 * 1073741824), "5.00 gb");
    assert_eq!(bytes::format(1099511627776), "1.00 tb");
    assert_eq!(bytes::format(2048 * 1099511627776), "2048.00 tb");
}

#[test]
fn format_rounds_ties_to_even() {
    // 1152 / 1024 = 1.125 exactly; 1.125 lies halfway between 1.12 and 1.13.
    assert_eq!(bytes::format(1152), "1.12 kb");
    // 1.375 lies halfway between 1.37 and 1.38.
    assert_eq!(bytes::format(1408), "1.38 kb");
}

#[test]
fn format_largest_count() {
    assert_eq!(bytes::format(u64::MAX), with_doubles(u64::MAX));
    assert_eq!(bytes::format(u64::MAX), "16777216.00 tb");
}

#[test]
fn format_matches_doubles_on_many_counts() {
    let mut samples: Vec<u64> = Vec::new();
    for b in 0..5000u64 {
        samples.push(b);
    }
    for k in 1..5u32 {
        let unit = 1024u64.pow(k);
        for m in 0..3000u64 {
            samples.push(unit + m * 13);
            samples.push(unit.saturating_sub(m));
            samples.push(unit.wrapping_mul(3) / 2 + m);
        }
    }
    let mut x: u64 = 0x9e37_79b9_7f4a_7c15;
    for _ in 0..20000 {
        x ^= x << 13;
        x ^= x >> 7;
        x ^= x << 17;
        samples.push(x);
        samples.push(x >> (x % 64));
    }
    for shift in 50..64u32 {
        let base = 1u64 << shift;
        for d in 0..64u64 {
            samples.push(base + d);
            samples.push(base - d);
        }
    }
    for b in samples {
        assert_eq!(bytes::format(b), with_doubles(b), "count {}", b);
    }
}


#[test]
fn unit_grows_with_count() {
    let order = ["b", "kb", "mb", "gb", "tb"];
    let unit = |b: u64| {
        let text = bytes::format(b);
        let name = text.rsplit(' ').next().unwrap().to_string();
        order.iter().position(|u| *u == name).unwrap()
    };
    let counts = [0u64, 1023, 1024, 1048575, 1048576, 1 << 30, 1 << 40, 1 << 53, u64::MAX];
    for w in counts.windows(2) {
        assert!(unit(w[0]) <= unit(w[1]));
    }
}
