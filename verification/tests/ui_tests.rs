use vps_deployer::ui::{human, spark};

/// The reference formatting: divide by 1024 in floating point while the
/// value reaches 1024, then print one decimal.
fn human_reference(b: u64) -> String {
    const U: [&str; 6] = ["B", "KiB", "MiB", "GiB", "TiB", "PiB"];
    let mut v = b as f64;
    let mut i = 0;
    while v >= 1024.0 && i < 5 {
        v /= 1024.0;
        i += 1;
    }
    if i == 0 {
        format!("{b} B")
    } else {
        format!("{v:.1} {}", U[i])
    }
}

/// The reference sparkline: scale by the largest value in floating point.
fn spark_reference(data: &[u64], width: usize, ascii: bool) -> String {
    const U: [char; 8] = ['▁', '▂', '▃', '▄', '▅', '▆', '▇', '█'];
    const A: [char; 8] = ['_', '.', '-', ':', '=', '+', '*', '#'];
    let glyphs = if ascii { &A } else { &U };
    if width == 0 {
        return String::new();
    }
    let max = data.iter().max().copied().unwrap_or(1).max(1);
    let start = data.len().saturating_sub(width);
    let mut s: String = data[start..]
        .iter()
        .map(|v| glyphs[((*v as f64 / max as f64) * 7.0) as usize])
        .collect();
    while s.chars().count() < width {
        s.insert(0, glyphs[0]);
    }
    s
}

#[test]
fn human_small_values_in_bytes() {
    assert_eq!(human(0), "0 B");
    assert_eq!(human(1), "1 B");
    assert_eq!(human(1023), "1023 B");
}

#[test]
fn human_exact_values() {
    assert_eq!(human(1024), "1.0 KiB");
    assert_eq!(human(1536), "1.5 KiB");
    assert_eq!(human(1024 * 1024), "1.0 MiB");
    assert_eq!(human(5 * 1024 * 1024 * 1024), "5.0 GiB");
    assert_eq!(human(u64::MAX), "16384.0 PiB");
}

#[test]
fn human_rounds_ties_to_even() {
    // 2.25 KiB and 2.75 KiB are exact binary fractions: ties round to even
    assert_eq!(human(2304), "2.2 KiB");
    assert_eq!(human(2816), "2.8 KiB");
    assert_eq!(human(2304), human_reference(2304));
    assert_eq!(human(2816), human_reference(2816));
}

#[test]
fn human_matches_reference_on_a_sweep() {
    let mut b: u64 = 0;
    while b < 300_000 {
        assert_eq!(human(b), human_reference(b), "{b}");
        b += 7;
    }
    let mut x: u64 = 1;
    for _ in 0..64 {
        for d in [0u64, 1, 3, 511, 512, 513] {
            let v = x.saturating_add(d);
            assert_eq!(human(v), human_reference(v), "{v}");
            let w = x.saturating_sub(d);
            assert_eq!(human(w), human_reference(w), "{w}");
        }
        x = x.saturating_mul(2);
    }
    let mut seed: u64 = 0x9E37_79B9_7F4A_7C15;
    for _ in 0..20_000 {
        seed ^= seed << 13;
        seed ^= seed >> 7;
        seed ^= seed << 17;
        let v = seed >> (seed % 64);
        assert_eq!(human(v), human_reference(v), "{v}");
    }
}

#[test]
fn spark_examples() {
    assert_eq!(spark(&[], 0, false), "");
    assert_eq!(spark(&[], 3, false), "▁▁▁");
    assert_eq!(spark(&[0, 7, 14], 3, false), "▁▄█");
    assert_eq!(spark(&[0, 7, 14], 3, true), "_:#");
    assert_eq!(spark(&[5, 10], 4, false), "▁▁▄█");
    assert_eq!(spark(&[1, 2, 3, 4], 2, true), "+#");
}

#[test]
fn spark_has_the_requested_width() {
    for w in 0..12 {
        let data: Vec<u64> = (0..7).map(|i| i * 3).collect();
        assert_eq!(spark(&data, w, false).chars().count(), w);
    }
}

#[test]
fn spark_matches_reference() {
    let mut seed: u64 = 12345;
    for round in 0..2000 {
        let len = (round % 70) as usize;
        let mut data = Vec::new();
        for _ in 0..len {
            seed ^= seed << 13;
            seed ^= seed >> 7;
            seed ^= seed << 17;
            data.push(seed % 100_000);
        }
        let width = (round % 65) as usize;
        let ascii = round % 2 == 0;
        assert_eq!(spark(&data, width, ascii), spark_reference(&data, width, ascii));
    }
}

#[test]
fn spark_follows_float_rounding_on_huge_values() {
    let big: u64 = 1 << 60;
    assert_eq!(spark(&[big, big - 1], 1, true), "#");
    assert_eq!(spark(&[big, big - 1], 1, true), spark_reference(&[big, big - 1], 1, true));
    assert_eq!(spark(&[u64::MAX, u64::MAX - 1, 1], 3, false), spark_reference(&[u64::MAX, u64::MAX - 1, 1], 3, false));
}

#[test]
fn spark_matches_reference_on_wide_ranges() {
    let mut seed: u64 = 0x2545_F491_4F6C_DD1D;
    for round in 0..5000 {
        let len = 1 + (round % 9) as usize;
        let mut data = Vec::new();
        for _ in 0..len {
            seed ^= seed << 13;
            seed ^= seed >> 7;
            seed ^= seed << 17;
            let v = match round % 4 {
                0 => seed,
                1 => seed >> (seed % 64),
                2 => u64::MAX - (seed % 4096),
                _ => (1u64 << (seed % 64)).wrapping_sub(seed % 3),
            };
            data.push(v);
        }
        let width = 1 + (round % 10) as usize;
        let ascii = round % 2 == 1;
        assert_eq!(spark(&data, width, ascii), spark_reference(&data, width, ascii), "{data:?}");
    }
    // values just below a level boundary of the largest value
    for m in [7u64, 7 << 50, (7 << 55) + 3, u64::MAX] {
        for k in 0..8u64 {
            let v = (m / 7).saturating_mul(k);
            for d in [0u64, 1, 2, 1024] {
                let w = v.saturating_sub(d).min(m);
                let data = [w, m];
                assert_eq!(spark(&data, 2, true), spark_reference(&data, 2, true), "{w} {m}");
            }
        }
    }
}
