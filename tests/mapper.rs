use sonify_k8s::sonify::{calculate_index, get_color, get_sound_map, map_metric};
use sonify_k8s::SonifyError;

#[test]
fn test_calculate_index_bounds() {
    assert_eq!(calculate_index(0, 8, 0, 100), 0);
    assert_eq!(calculate_index(100, 8, 0, 100), 7);
    assert_eq!(calculate_index(50, 8, 0, 100), 3);
}

#[test]
fn test_calculate_index_clamping() {
    assert_eq!(calculate_index(-10, 8, 0, 100), 0);
    assert_eq!(calculate_index(110, 8, 0, 100), 7);
}

#[test]
fn test_calculate_index_edge_case() {
    assert_eq!(calculate_index(10, 5, 10, 10), 0);
}

#[test]
fn test_get_color_in_bounds() {
    let colors = vec!["#111111".to_string(), "#222222".to_string(), "#333333".to_string()];
    assert_eq!(get_color(&colors, 1), "#222222");
}

#[test]
fn test_get_color_out_of_bounds() {
    let colors = vec!["#111111".to_string(), "#222222".to_string(), "#333333".to_string()];
    assert_eq!(get_color(&colors, 10), "#333333");
}

#[test]
fn test_get_color_empty() {
    let colors: Vec<String> = vec![];
    assert_eq!(get_color(&colors, 0), "#808080");
}

#[test]
fn calculate_index_is_monotone_and_in_range() {
    let mut previous = 0;
    for v in -50..=150 {
        let index = calculate_index(v, 8, 0, 100);
        assert!(index < 8);
        assert!(index >= previous);
        previous = index;
    }
}

#[test]
fn calculate_index_inverted_range_gives_zero() {
    assert_eq!(calculate_index(42, 8, 100, 0), 0);
    assert_eq!(calculate_index(-7, 3, 5, 5), 0);
}

#[test]
fn calculate_index_range_ends() {
    assert_eq!(calculate_index(-20, 6, -20, 40), 0);
    assert_eq!(calculate_index(40, 6, -20, 40), 5);
}

#[test]
fn calculate_index_truncates_at_boundaries() {
    // 100 / 7 is not whole: 14 falls below the first boundary, 15 above it.
    assert_eq!(calculate_index(14, 8, 0, 100), 0);
    assert_eq!(calculate_index(15, 8, 0, 100), 1);
    // Exactly on an inner boundary of 5 buckets over 0..=4.
    assert_eq!(calculate_index(1, 5, 0, 4), 1);
    assert_eq!(calculate_index(i64::MAX, 8, i64::MIN, i64::MAX), 7);
    assert_eq!(calculate_index(i64::MIN, 8, i64::MIN, i64::MAX), 0);
}

#[test]
fn map_metric_cpu_half() {
    let table = get_sound_map();
    let (frequency, name, color) = map_metric("cpu_usage", 50_000, &table).unwrap();
    assert_eq!(frequency, 349);
    assert_eq!(name, "F4");
    assert_eq!(color, "#126E82");
}

#[test]
fn map_metric_errors_above_ceiling() {
    let table = get_sound_map();
    let (frequency, name, color) = map_metric("errors_per_second", 11_000, &table).unwrap();
    assert_eq!(frequency, 262);
    assert_eq!(name, "C4");
    assert_eq!(color, "#90BE6D");
}

#[test]
fn map_metric_unknown_metric() {
    let table = get_sound_map();
    match map_metric("unknown_metric", 1_000, &table) {
        Err(SonifyError::InvalidMetric(name)) => assert_eq!(name, "unknown_metric"),
        _ => panic!("expected an unknown metric error"),
    }
}

#[test]
fn map_metric_discrete_takes_whole_part() {
    let table = get_sound_map();
    let (frequency, name, color) = map_metric("pod_status", 3_000, &table).unwrap();
    assert_eq!((frequency, name.as_str(), color.as_str()), (392, "G4", "#065F46"));
    let (frequency, name, color) = map_metric("node_pressure", 1_900, &table).unwrap();
    assert_eq!((frequency, name.as_str(), color.as_str()), (294, "D4", "#F0F4C3"));
    let (frequency, _, _) = map_metric("pod_status", 9_000, &table).unwrap();
    assert_eq!(frequency, 392);
    let (frequency, _, _) = map_metric("pod_status", -2_000, &table).unwrap();
    assert_eq!(frequency, 220);
}

#[test]
fn map_metric_uses_metric_ceilings() {
    let table = get_sound_map();
    // 250 ms of 500 ms: bucket 3 of 0..=7.
    let (frequency, _, color) = map_metric("http_latency", 250_000, &table).unwrap();
    assert_eq!((frequency, color.as_str()), (415, "#F46036"));
    // 2.5 replicas of 5: bucket 3.
    let (frequency, name, _) = map_metric("replicas", 2_500, &table).unwrap();
    assert_eq!((frequency, name.as_str()), (311, "D#4"));
    let (frequency, _, _) = map_metric("memory_usage", 100_000, &table).unwrap();
    assert_eq!(frequency, 554);
}
