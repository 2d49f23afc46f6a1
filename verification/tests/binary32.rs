use perceptor::binary32::round_to_binary32;

const UNITS: f64 = 134217728.0;

fn reference(x: u64) -> u64 {
    let value = (x as f64) / UNITS;
    ((value as f32) as f64 * UNITS) as u64
}

#[test]
fn rounding_matches_the_hardware_conversion() {
    let mut x: u64 = 0;
    while x < (1u64 << 36) {
        assert_eq!(round_to_binary32(x), reference(x), "x = {x}");
        x = x * 3 / 2 + 7;
    }
    for x in [16777215u64, 16777216, 16777217, 16777218, 16777219, 33554433, 33554435, 33554437, 1u64 << 35] {
        assert_eq!(round_to_binary32(x), reference(x), "x = {x}");
    }
}

#[test]
fn small_values_are_exact() {
    for x in 0..100_000u64 {
        assert_eq!(round_to_binary32(x), x);
    }
}
