use mockloop_controller::phase::CardiacPhase;

#[test]
fn test_phase_timing() {
    // Heart rate: 60 bpm = 1 Hz
    let hr: u32 = 60;
    let systole_ratio: u16 = 300;

    // Full cycle: 1 second
    // Systole: 0.3s
    assert_eq!(
        CardiacPhase::Systole.get_total_phase_time(hr, systole_ratio),
        300000000
    );
    // Diastole: 0.7s
    assert_eq!(
        CardiacPhase::Diastole.get_total_phase_time(hr, systole_ratio),
        700000000
    );

    // More realistic heart rate: 120 bpm = 2 Hz -> 0.5s period
    let hr_fast: u32 = 120;

    // Systole: 0.5 * 0.3 = 0.15s
    assert_eq!(
        CardiacPhase::Systole.get_total_phase_time(hr_fast, systole_ratio),
        150000000
    );
    // Diastole: 0.5 * 0.7 = 0.35s
    assert_eq!(
        CardiacPhase::Diastole.get_total_phase_time(hr_fast, systole_ratio),
        350000000
    );
}

#[test]
fn phase_test_phase_timing() {
    let hr: u32 = 60;
    let systole_ratio: u16 = 300;
    assert_eq!(
        CardiacPhase::Systole.get_total_phase_time(hr, systole_ratio),
        300000000
    );
    assert_eq!(
        CardiacPhase::Diastole.get_total_phase_time(hr, systole_ratio),
        700000000
    );
    let hr_fast: u32 = 120;
    assert_eq!(
        CardiacPhase::Systole.get_total_phase_time(hr_fast, systole_ratio),
        150000000
    );
    assert_eq!(
        CardiacPhase::Diastole.get_total_phase_time(hr_fast, systole_ratio),
        350000000
    );
}

#[test]
fn systole_and_diastole_partition_the_cycle() {
    // 60 cycles/min, ratio 0.3: 300ms + 700ms == the 1000ms full cycle.
    let s = CardiacPhase::Systole.get_total_phase_time(60, 300);
    let d = CardiacPhase::Diastole.get_total_phase_time(60, 300);
    assert_eq!(s + d, 1_000_000_000);

    // A rate that does not divide the cycle evenly: the sum still matches
    // the full cycle up to one nanosecond.
    let full: u64 = 60_000_000_000 / 7;
    let s7 = CardiacPhase::Systole.get_total_phase_time(7, 333);
    let d7 = CardiacPhase::Diastole.get_total_phase_time(7, 333);
    assert!(s7 + d7 <= full);
    assert!(full - (s7 + d7) <= 1);
}

#[test]
fn zero_heart_rate_holds_the_phase_forever() {
    assert_eq!(CardiacPhase::Systole.get_total_phase_time(0, 300), u64::MAX);
    assert_eq!(CardiacPhase::Diastole.get_total_phase_time(0, 300), u64::MAX);
}

#[test]
fn switching_twice_returns_to_the_original_phase() {
    assert_eq!(
        CardiacPhase::Systole.switch().switch(),
        CardiacPhase::Systole
    );
    assert_eq!(
        CardiacPhase::Diastole.switch().switch(),
        CardiacPhase::Diastole
    );
    assert_eq!(CardiacPhase::Systole.switch(), CardiacPhase::Diastole);
}

#[test]
fn extreme_ratios_stay_within_the_cycle() {
    // Ratio just above zero and just below one.
    assert_eq!(CardiacPhase::Systole.get_total_phase_time(60, 1), 1_000_000);
    assert_eq!(
        CardiacPhase::Diastole.get_total_phase_time(60, 1),
        999_000_000
    );
    assert_eq!(
        CardiacPhase::Systole.get_total_phase_time(60, 999),
        999_000_000
    );
    assert_eq!(CardiacPhase::Diastole.get_total_phase_time(60, 999), 1_000_000);
    // A ratio beyond the scale clamps rather than underflowing.
    assert_eq!(
        CardiacPhase::Systole.get_total_phase_time(60, 2000),
        1_000_000_000
    );
    assert_eq!(CardiacPhase::Diastole.get_total_phase_time(60, 2000), 0);
}
