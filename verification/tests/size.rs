use docker_monitor::size::write_mebibytes;

fn by_floating_point(bytes: u64) -> String {
    format!("{:.1}", bytes as f64 / 1024.0 / 1024.0)
}

#[test]
fn sizes_in_mebibytes() {
    assert_eq!(write_mebibytes(0), "0.0");
    assert_eq!(write_mebibytes(1), "0.0");
    assert_eq!(write_mebibytes(1024 * 1024), "1.0");
    assert_eq!(write_mebibytes(512 * 1024 * 1024), "512.0");
    assert_eq!(write_mebibytes(157_286_400), "150.0");
    assert_eq!(write_mebibytes(123_456_789), "117.7");
}

#[test]
fn ties_go_to_the_even_digit() {
    assert_eq!(write_mebibytes(262_144), "0.2");
    assert_eq!(write_mebibytes(786_432), "0.8");
    assert_eq!(write_mebibytes(1_310_720), "1.2");
}

#[test]
fn sizes_beyond_double_precision() {
    assert_eq!(write_mebibytes(u64::MAX), "17592186044416.0");
    assert_eq!(write_mebibytes(u64::MAX), by_floating_point(u64::MAX));
    for exponent in 0..64u32 {
        let power = 1u64 << exponent;
        for step in 0..3000u64 {
            let above = power.wrapping_add(step);
            let below = power.wrapping_sub(step);
            assert_eq!(write_mebibytes(above), by_floating_point(above));
            assert_eq!(write_mebibytes(below), by_floating_point(below));
        }
    }
}

#[test]
fn sizes_agree_with_floating_point() {
    let mut state: u64 = 1;
    for _ in 0..200_000 {
        state = state
            .wrapping_mul(6364136223846793005)
            .wrapping_add(1442695040888963407);
        let bytes = state >> (state % 61);
        assert_eq!(write_mebibytes(bytes), by_floating_point(bytes));
    }
    for quarter in 0..100_000u64 {
        let bytes = quarter * 262_144;
        assert_eq!(write_mebibytes(bytes), by_floating_point(bytes));
    }
}
