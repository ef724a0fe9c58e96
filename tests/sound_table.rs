use sonify_k8s::sonify::{get_color, get_sound_map};

#[test]
fn test_sound_map_completeness() {
    let sound_map = get_sound_map();

    assert!(sound_map.contains_key("cpu_usage"));
    assert!(sound_map.contains_key("memory_usage"));
    assert!(sound_map.contains_key("pod_status"));
    assert!(sound_map.contains_key("http_latency"));
    assert!(sound_map.contains_key("errors_per_second"));
    assert!(sound_map.contains_key("replicas"));
    assert!(sound_map.contains_key("node_pressure"));
}

#[test]
fn test_sound_map_cpu_notes() {
    let sound_map = get_sound_map();
    let cpu_config = sound_map.get("cpu_usage").unwrap();

    assert_eq!(cpu_config.notes.len(), 8);
    assert_eq!(cpu_config.colors.len(), 8);
    assert_eq!(cpu_config.notes[0].frequency, 262);
    assert_eq!(cpu_config.notes[7].frequency, 523);
}

#[test]
fn test_calculate_index_range() {
    for i in 0..=100 {
        let index = sonify_k8s::sonify::calculate_index(i as i64, 8, 0, 100);
        assert!(index < 8, "Index {} out of bounds for value {}", index, i);
    }
}

#[test]
fn test_get_color_safety() {
    let colors = vec![
        "#111111".to_string(),
        "#222222".to_string(),
        "#333333".to_string(),
    ];

    for i in 0..10 {
        let color = get_color(&colors, i);
        assert!(!color.is_empty());
        assert!(color.starts_with('#'));
    }
}

#[test]
fn sound_map_unknown_key_is_absent() {
    let sound_map = get_sound_map();
    assert!(!sound_map.contains_key("disk_usage"));
    assert!(sound_map.get("cpu").is_none());
}

#[test]
fn sound_map_entries_keep_their_details() {
    let sound_map = get_sound_map();
    let pods = sound_map.get("pod_status").unwrap();
    assert_eq!(pods.metric_name, "Pod Status");
    assert_eq!(pods.unit, "");
    assert_eq!(pods.notes.len(), 4);
    let status = pods.status_map.as_ref().unwrap();
    assert!(status.contains(&("Running".to_string(), 3)));
    assert!(status.contains(&("Pending".to_string(), 1)));
    let latency = sound_map.get("http_latency").unwrap();
    assert_eq!(latency.unit, "ms");
    assert_eq!(latency.notes[7].name, "E5");
    assert!(latency.status_map.is_none());
    let pressure = sound_map.get("node_pressure").unwrap();
    assert!(pressure.status_map.as_ref().unwrap().contains(&("True".to_string(), 3)));
}

#[test]
fn sound_map_colors_are_marked() {
    let sound_map = get_sound_map();
    for (_, config) in sound_map.entries.iter() {
        for color in config.colors.iter() {
            assert_eq!(color.len(), 7);
            assert!(color.starts_with('#'));
        }
        for i in 0..12 {
            assert!(get_color(&config.colors, i).starts_with('#'));
        }
    }
    let empty: Vec<String> = Vec::new();
    assert!(get_color(&empty, 5).starts_with('#'));
}
