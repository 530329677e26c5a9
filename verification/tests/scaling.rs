use canvas_runtime::geometry::{scale_to_logical, scale_to_physical, RATIO_ONE};
use canvas_runtime::Size;

#[test]
fn ratio_one_is_a_thousand() {
    assert_eq!(RATIO_ONE, 1000);
    assert_eq!(scale_to_logical(640, RATIO_ONE), 640);
    assert_eq!(scale_to_physical(640, RATIO_ONE), 640);
}

#[test]
fn logical_is_physical_over_ratio() {
    // ratio 2.0
    assert_eq!(scale_to_logical(800, 2000), 400);
    assert_eq!(scale_to_logical(600, 2000), 300);
    // rounding is half-up: 101 / 2 = 50.5 -> 51
    assert_eq!(scale_to_logical(101, 2000), 51);
    // ratio 1.5: 15 / 1.5 = 10
    assert_eq!(scale_to_logical(15, 1500), 10);
    // 1 / 2 = 0.5 -> 1
    assert_eq!(scale_to_logical(1, 2000), 1);
    assert_eq!(scale_to_logical(0, 2000), 0);
}

#[test]
fn physical_is_logical_times_ratio() {
    assert_eq!(scale_to_physical(400, 2000), 800);
    assert_eq!(scale_to_physical(51, 2000), 102);
    assert_eq!(scale_to_physical(10, 1500), 15);
    // 7 * 1.5 = 10.5 -> 11
    assert_eq!(scale_to_physical(7, 1500), 11);
    assert_eq!(scale_to_physical(0, 1500), 0);
}

#[test]
fn results_clamp_to_u32() {
    assert_eq!(scale_to_physical(u32::MAX, 2000), u32::MAX);
    assert_eq!(scale_to_logical(u32::MAX, 500), u32::MAX);
}

#[test]
fn round_trip_within_one_unit() {
    for ratio in [1000u32, 1250, 1500, 1750, 2000, 2250, 3000, 4000] {
        for logical in [0u32, 1, 2, 3, 5, 7, 99, 100, 101, 399, 400, 1023, 65535] {
            let physical = scale_to_physical(logical, ratio);
            let back = scale_to_logical(physical, ratio);
            assert!(
                back == logical || back == logical + 1,
                "ratio {} logical {} physical {} back {}",
                ratio,
                logical,
                physical,
                back
            );
        }
    }
}

#[test]
fn size_derives_logical_atomically() {
    let size = Size::new(800, 600, 2000);
    assert_eq!(size.logical(), (400, 300));
    assert_eq!(size.physical(), (800, 600));
    assert_eq!(size.ratio_milli(), 2000);
    assert_eq!(size.scale_logical(100), 50);
    assert_eq!(size.scale_physical(50), 100);

    let size = Size::new(1601, 1201, 2000);
    assert_eq!(size.logical(), (801, 601));
}
