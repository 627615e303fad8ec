use chip_map::analysis::{
    analyze_all_slots, analyze_single_slot, hot_gradient, hot_zscore, nonce_deficit,
    position_stats, slot_nonce_baseline, ChipAnalysis, SCALE,
};
use chip_map::models::{Chip, Slot};

fn make_chip(id: i32, temp: i32) -> Chip {
    Chip { id, temp, ..Default::default() }
}

fn make_chip_with_nonce(id: i32, temp: i32, nonce: i64) -> Chip {
    Chip { id, temp, nonce, ..Default::default() }
}

fn make_slot(id: i32, temps: &[i32]) -> Slot {
    Slot {
        id,
        chips: temps.iter().enumerate().map(|(i, &t)| make_chip(i as i32, t)).collect(),
        ..Default::default()
    }
}

fn make_slot_with_nonces(id: i32, nonces: &[i64]) -> Slot {
    Slot {
        id,
        chips: nonces
            .iter()
            .enumerate()
            .map(|(i, &n)| make_chip_with_nonce(i as i32, 50, n))
            .collect(),
        ..Default::default()
    }
}

fn gradient(a: &ChipAnalysis) -> f64 {
    a.gradient as f64 / SCALE as f64
}

fn zscore(a: &ChipAnalysis) -> f64 {
    a.cross_slot_zscore as f64 / SCALE as f64
}

fn deficit(a: &ChipAnalysis) -> f64 {
    a.nonce_deficit as f64 / SCALE as f64
}

#[test]
fn test_uniform_temps_no_gradient() {
    let slots = vec![make_slot(0, &[50; 9])];
    let analysis = analyze_all_slots(&slots, 3);
    assert!(analysis[0].iter().all(|a| gradient(a) < 0.1));
}

#[test]
fn test_local_hotspot_detection() {
    let mut temps = [50; 9];
    temps[4] = 80;
    let slots = vec![make_slot(0, &temps)];
    let analysis = analyze_all_slots(&slots, 3);
    assert!(gradient(&analysis[0][4]) > 20.0);
    assert!(gradient(&analysis[0][1]) < 1.0);
}

#[test]
fn test_cold_spot_ignored() {
    let mut temps = [80; 9];
    temps[4] = 50;
    let slots = vec![make_slot(0, &temps)];
    let analysis = analyze_all_slots(&slots, 3);
    assert!(gradient(&analysis[0][4]) < 0.1);
}

#[test]
fn test_cross_slot_outlier() {
    let slots = vec![
        make_slot(0, &[90, 50, 50]),
        make_slot(1, &[50, 50, 50]),
        make_slot(2, &[50, 50, 50]),
    ];
    let analysis = analyze_all_slots(&slots, 3);
    assert!(zscore(&analysis[0][0]) > 1.0);
    assert!(zscore(&analysis[1][0]) < 0.1);
    assert!(zscore(&analysis[2][0]) < 0.1);
}

#[test]
fn test_cross_slot_cooler_ignored() {
    let slots = vec![
        make_slot(0, &[30, 50, 50]),
        make_slot(1, &[50, 50, 50]),
        make_slot(2, &[50, 50, 50]),
    ];
    let analysis = analyze_all_slots(&slots, 3);
    assert!(zscore(&analysis[0][0]) < 0.1);
}

#[test]
fn test_airflow_bottom_section() {
    let slots = vec![make_slot(0, &[50, 60, 70, 50, 50, 50])];
    let analysis = analyze_all_slots(&slots, 1);
    assert!(gradient(&analysis[0][0]) < 0.1);
    assert!(gradient(&analysis[0][1]) > 5.0);
    assert!(gradient(&analysis[0][2]) > 5.0);
}

#[test]
fn test_airflow_top_section() {
    let slots = vec![make_slot(0, &[50, 50, 50, 80, 60, 50])];
    let analysis = analyze_all_slots(&slots, 1);
    assert!(
        gradient(&analysis[0][3]) > 15.0,
        "D3 should have gradient, got {}",
        gradient(&analysis[0][3])
    );
    assert!(
        gradient(&analysis[0][4]) > 5.0,
        "D4 should have gradient, got {}",
        gradient(&analysis[0][4])
    );
    assert!(gradient(&analysis[0][5]) < 0.1);
}

#[test]
fn test_snake_boundary_chips() {
    let slots = vec![make_slot(0, &[50, 50, 90, 90, 50, 50])];
    let analysis = analyze_all_slots(&slots, 1);
    assert!(
        gradient(&analysis[0][2]) > 30.0,
        "D2 should flag, got {}",
        gradient(&analysis[0][2])
    );
    assert!(
        gradient(&analysis[0][3]) > 30.0,
        "D3 should flag, got {}",
        gradient(&analysis[0][3])
    );
}

#[test]
fn test_nonce_uniform_no_deficit() {
    let slots = vec![make_slot_with_nonces(0, &[1000, 1000, 1000])];
    let analysis = analyze_all_slots(&slots, 1);
    for (i, a) in analysis[0].iter().enumerate() {
        assert!(deficit(a) < 0.1, "Chip {} should have no deficit, got {}", i, deficit(a));
    }
}

#[test]
fn test_nonce_underperformer_detected() {
    let slots = vec![make_slot_with_nonces(0, &[1000, 500, 1000])];
    let analysis = analyze_all_slots(&slots, 1);
    assert!(deficit(&analysis[0][0]) < 1.0);
    assert!(deficit(&analysis[0][2]) < 1.0);
    assert!(
        deficit(&analysis[0][1]) > 30.0,
        "Chip 1 should have ~40% deficit, got {}",
        deficit(&analysis[0][1])
    );
}

#[test]
fn test_nonce_dead_chip_detected() {
    let slots = vec![make_slot_with_nonces(0, &[1000, 0, 1000])];
    let analysis = analyze_all_slots(&slots, 1);
    assert!(
        deficit(&analysis[0][1]) > 90.0,
        "Dead chip should have ~100% deficit, got {}",
        deficit(&analysis[0][1])
    );
}

#[test]
fn test_nonce_overperformer_no_deficit() {
    let slots = vec![make_slot_with_nonces(0, &[500, 1500, 500])];
    let analysis = analyze_all_slots(&slots, 1);
    assert!(
        deficit(&analysis[0][1]) < 0.1,
        "Overperformer should have no deficit, got {}",
        deficit(&analysis[0][1])
    );
}

#[test]
fn hotspot_gradient_is_excess_over_neighbor_mean() {
    let mut temps = [50; 9];
    temps[4] = 80;
    let analysis = analyze_all_slots(&vec![make_slot(0, &temps)], 3);
    assert_eq!(analysis[0][4].gradient, 30_000);
    assert_eq!(analysis[0][1].gradient, 0);
    assert_eq!(analysis[0][3].gradient, 0);
}

#[test]
fn gradient_of_fractional_mean_rounds_down() {
    // chip 1 (row 1 of a 3-chip domain) against rows 0 and 2: 61 - 50.5
    let analysis = analyze_all_slots(&vec![make_slot(0, &[50, 61, 51])], 3);
    assert_eq!(analysis[0][1].gradient, 10_500);
    // chip 2 against row 1 only: 51 < 61
    assert_eq!(analysis[0][2].gradient, 0);
}

#[test]
fn airflow_exact_gradients() {
    let bottom = analyze_all_slots(&vec![make_slot(0, &[50, 60, 70, 50, 50, 50])], 1);
    assert_eq!(bottom[0][0].gradient, 0);
    assert_eq!(bottom[0][1].gradient, 10_000);
    assert_eq!(bottom[0][2].gradient, 10_000);
    let top = analyze_all_slots(&vec![make_slot(0, &[50, 50, 50, 80, 60, 50])], 1);
    assert_eq!(top[0][5].gradient, 0);
    assert_eq!(top[0][4].gradient, 10_000);
    assert_eq!(top[0][3].gradient, 20_000);
    let seam = analyze_all_slots(&vec![make_slot(0, &[50, 50, 90, 90, 50, 50])], 1);
    assert_eq!(seam[0][2].gradient, 40_000);
    assert_eq!(seam[0][3].gradient, 40_000);
}

#[test]
fn cross_slot_outlier_exact_zscore() {
    let slots = vec![
        make_slot(0, &[90, 50, 50]),
        make_slot(1, &[50, 50, 50]),
        make_slot(2, &[50, 50, 50]),
    ];
    let analysis = analyze_all_slots(&slots, 3);
    // mean 190/3, std sqrt(3200)/3: z = sqrt(2)
    assert_eq!(analysis[0][0].cross_slot_zscore, 1414);
    assert_eq!(analysis[1][0].cross_slot_zscore, 0);
    assert_eq!(analysis[0][1].cross_slot_zscore, 0);
}

#[test]
fn near_uniform_fleet_caps_zscore() {
    let slots = vec![
        make_slot(0, &[51]),
        make_slot(1, &[50]),
        make_slot(2, &[50]),
        make_slot(3, &[50]),
    ];
    let analysis = analyze_all_slots(&slots, 1);
    // std = sqrt(3)/4 < 0.5, so the score is the deviation 0.75 itself
    assert_eq!(analysis[0][0].cross_slot_zscore, 750);
    let far = vec![
        make_slot(0, &[60]),
        make_slot(1, &[60]),
        make_slot(2, &[60]),
    ];
    assert_eq!(analyze_all_slots(&far, 1)[0][0].cross_slot_zscore, 0);
}

#[test]
fn cross_slot_cooler_scores_zero_exactly() {
    let slots = vec![
        make_slot(0, &[30, 50, 50]),
        make_slot(1, &[50, 50, 50]),
        make_slot(2, &[50, 50, 50]),
    ];
    let analysis = analyze_all_slots(&slots, 3);
    assert_eq!(analysis[0][0].cross_slot_zscore, 0);
    assert!(analysis[1][0].cross_slot_zscore > 0);
}

#[test]
fn ragged_boards_are_not_zero_padded() {
    let slots = vec![
        make_slot(0, &[50, 50, 90]),
        make_slot(1, &[50, 50]),
        make_slot(2, &[50, 50]),
    ];
    let analysis = analyze_all_slots(&slots, 3);
    assert_eq!(analysis.len(), 3);
    assert_eq!(analysis[0].len(), 3);
    assert_eq!(analysis[1].len(), 2);
    // the only sample at position 2 is the chip itself
    assert_eq!(analysis[0][2].cross_slot_zscore, 0);
}

#[test]
fn nonce_deficit_exact_values() {
    let under = analyze_all_slots(&vec![make_slot_with_nonces(0, &[1000, 500, 1000])], 1);
    assert_eq!(under[0][1].nonce_deficit, 40_000);
    assert_eq!(under[0][0].nonce_deficit, 0);
    let dead = analyze_all_slots(&vec![make_slot_with_nonces(0, &[1000, 0, 1000])], 1);
    assert_eq!(dead[0][1].nonce_deficit, 100_000);
    let over = analyze_all_slots(&vec![make_slot_with_nonces(0, &[500, 1500, 500])], 1);
    assert_eq!(over[0][1].nonce_deficit, 0);
    assert_eq!(over[0][0].nonce_deficit, 40_000);
}

#[test]
fn zero_average_nonce_gives_no_deficit() {
    let analysis = analyze_all_slots(&vec![make_slot_with_nonces(0, &[0, 0, 0])], 1);
    assert!(analysis[0].iter().all(|a| a.nonce_deficit == 0));
    let negative = analyze_all_slots(&vec![make_slot_with_nonces(0, &[-10, 5, 0])], 1);
    assert!(negative[0].iter().all(|a| a.nonce_deficit == 0));
}

#[test]
fn zero_chips_per_domain_gives_zero_records() {
    let slots = vec![make_slot(0, &[90, 50, 50]), make_slot(1, &[50, 50, 50])];
    let analysis = analyze_all_slots(&slots, 0);
    assert_eq!(analysis.len(), 2);
    assert_eq!(analysis[0].len(), 3);
    assert!(analysis.iter().flatten().all(|a| *a == ChipAnalysis::default()));
}

#[test]
fn empty_inputs_give_empty_outputs() {
    assert!(analyze_all_slots(&vec![], 3).is_empty());
    let analysis = analyze_all_slots(&vec![make_slot(0, &[]), make_slot(1, &[50])], 3);
    assert_eq!(analysis.len(), 2);
    assert!(analysis[0].is_empty());
    assert_eq!(analysis[1].len(), 1);
}

#[test]
fn analysis_is_repeatable() {
    let slots = vec![
        make_slot(0, &[90, 61, 50, 70, 55, 52]),
        make_slot(1, &[50, 50, 52, 71]),
    ];
    let first = analyze_all_slots(&slots, 2);
    let second = analyze_all_slots(&slots, 2);
    assert_eq!(first, second);
}

#[test]
fn stats_and_scores_from_parts() {
    let stats = position_stats(&vec![90, 50, 50]);
    assert_eq!(stats.count, 3);
    assert_eq!(stats.sum, 190);
    assert_eq!(stats.sum_sq, 13_100);
    assert_eq!(hot_zscore(90, &stats), 1414);
    assert_eq!(hot_zscore(50, &stats), 0);
    let chips = vec![
        make_chip_with_nonce(0, 50, 1000),
        make_chip_with_nonce(1, 50, 500),
        make_chip_with_nonce(2, 50, 1000),
    ];
    let base = slot_nonce_baseline(&chips);
    assert_eq!(base.total, 2500);
    assert_eq!(base.count, 3);
    assert_eq!(nonce_deficit(500, &base), 40_000);
    assert_eq!(nonce_deficit(1000, &base), 0);
}

#[test]
fn small_positive_deviation_still_scores() {
    let stats = position_stats(&vec![0, 3000, 1501]);
    // 1501 lies 2/3 of a degree above the mean, far under one thousandth of
    // a standard deviation
    assert_eq!(hot_zscore(1501, &stats), 1);
    assert_eq!(hot_zscore(1500, &stats), 0);
    let slots = vec![make_slot(0, &[0]), make_slot(1, &[3000]), make_slot(2, &[1501])];
    assert_eq!(analyze_all_slots(&slots, 1)[2][0].cross_slot_zscore, 1);
}

#[test]
fn gradient_of_any_neighbor_count() {
    assert_eq!(hot_gradient(80, &vec![50, 50, 50]), 30_000);
    assert_eq!(hot_gradient(80, &vec![50, 60, 70, 80]), 15_000);
    assert_eq!(hot_gradient(50, &vec![50, 50]), 0);
    assert_eq!(hot_gradient(40, &vec![50, 60]), 0);
    assert_eq!(hot_gradient(40, &vec![]), 0);
    assert_eq!(hot_gradient(51, &vec![50, 50, 51]), 666);
    assert_eq!(hot_gradient(i32::MAX, &vec![i32::MIN]), 4_294_967_295_000);
}

#[test]
fn short_statistics_table_scores_zero_past_its_end() {
    let slot = make_slot(0, &[90, 50, 50]);
    let stats = vec![position_stats(&vec![90, 50, 50])];
    let scores = analyze_single_slot(&slot, 3, &stats);
    assert_eq!(scores.len(), 3);
    assert_eq!(scores[0].cross_slot_zscore, 1414);
    assert_eq!(scores[1].cross_slot_zscore, 0);
    assert_eq!(scores[2].cross_slot_zscore, 0);
    assert_eq!(scores[0].gradient, 40_000);
    assert_eq!(scores[1].gradient, 0);
}
