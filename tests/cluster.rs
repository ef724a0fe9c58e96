use sonify_k8s::audio::PcmSource;
use sonify_k8s::config::{KubernetesConfig, MetricsConfig, MonitoringConfig};
use sonify_k8s::k8s::{
    estimated_errors, estimated_latency_ms, has_pressure, metric_source, pod_phase_index,
    total_replicas, MetricSource,
};
use sonify_k8s::text::{decimal_string, same_text, signed_decimal_string};
use sonify_k8s::SonifyError;

#[test]
fn pod_phases_map_to_status_indices() {
    assert_eq!(pod_phase_index("Running"), 3);
    assert_eq!(pod_phase_index("Succeeded"), 3);
    assert_eq!(pod_phase_index("Pending"), 1);
    assert_eq!(pod_phase_index("Failed"), 0);
    assert_eq!(pod_phase_index("Unknown"), 0);
    assert_eq!(pod_phase_index("running"), 0);
}

#[test]
fn estimates_follow_the_pod_phase() {
    assert_eq!(estimated_latency_ms("Running"), 50);
    assert_eq!(estimated_latency_ms("Pending"), 250);
    assert_eq!(estimated_latency_ms("Failed"), 350);
    assert_eq!(estimated_errors("Succeeded"), 0);
    assert_eq!(estimated_errors("Pending"), 5);
    assert_eq!(estimated_errors("Unknown"), 5);
}

#[test]
fn node_pressure_needs_a_true_pressure_condition() {
    let calm = vec![
        ("Ready".to_string(), "True".to_string()),
        ("MemoryPressure".to_string(), "False".to_string()),
    ];
    assert!(!has_pressure(&calm));
    let pressed = vec![
        ("Ready".to_string(), "True".to_string()),
        ("DiskPressure".to_string(), "True".to_string()),
    ];
    assert!(has_pressure(&pressed));
    assert!(has_pressure(&[("NetworkUnavailable".to_string(), "True".to_string())]));
    assert!(!has_pressure(&[]));
}

#[test]
fn replica_total_skips_unset_counts() {
    assert_eq!(total_replicas(&[Some(2), None, Some(3)]), 5);
    assert_eq!(total_replicas(&[]), 0);
    assert_eq!(total_replicas(&[Some(i32::MAX), Some(i32::MAX)]), 2 * i32::MAX as i64);
}

#[test]
fn metric_names_pick_their_source() {
    assert_eq!(metric_source("cpu_usage"), Some(MetricSource::CpuUsage));
    assert_eq!(metric_source("memory_usage"), Some(MetricSource::MemoryUsage));
    assert_eq!(metric_source("pod_status"), Some(MetricSource::PodStatus));
    assert_eq!(metric_source("http_latency"), Some(MetricSource::HttpLatency));
    assert_eq!(metric_source("errors_per_second"), Some(MetricSource::ErrorsPerSecond));
    assert_eq!(metric_source("replicas"), Some(MetricSource::Replicas));
    assert_eq!(metric_source("node_pressure"), Some(MetricSource::NodePressure));
    assert_eq!(metric_source("disk"), None);
}

#[test]
fn pcm_source_reads_front_to_back() {
    let mut source = PcmSource::new(vec![1, -2, 3], 2);
    assert_eq!(source.channels(), 1);
    assert_eq!(source.sample_rate(), 2);
    assert_eq!(source.total_duration(), Some(1));
    assert_eq!(source.current_frame_len(), Some(3));
    assert_eq!(source.next(), Some(1));
    assert_eq!(source.next(), Some(-2));
    assert_eq!(source.current_frame_len(), Some(1));
    assert_eq!(source.next(), Some(3));
    assert_eq!(source.next(), None);
    assert_eq!(source.current_frame_len(), Some(0));
}

#[test]
fn config_sections_have_defaults() {
    let k = KubernetesConfig::default();
    assert_eq!(k.namespace, "default");
    assert!(k.use_kubeconfig);
    assert!(k.api_url.is_none());
    let m = MonitoringConfig::default();
    assert_eq!(m.poll_interval, 5);
    assert!(!m.verbose);
    assert!(m.use_color);
    let metrics = MetricsConfig::default();
    assert_eq!(metrics.enabled.len(), 7);
    assert_eq!(metrics.enabled[0], "cpu_usage");
    assert_eq!(metrics.enabled[6], "node_pressure");
}

#[test]
fn text_helpers() {
    assert!(same_text("abc", "abc"));
    assert!(!same_text("abc", "abd"));
    assert!(!same_text("abc", "ab"));
    assert_eq!(decimal_string(0), "0");
    assert_eq!(decimal_string(1907), "1907");
    assert_eq!(signed_decimal_string(-45), "-45");
    assert_eq!(signed_decimal_string(i64::MIN), "-9223372036854775808");
}

#[test]
fn error_messages() {
    assert_eq!(
        SonifyError::InvalidMetric("disk".to_string()).message(),
        "Invalid metric: disk"
    );
    assert_eq!(SonifyError::InvalidFrequency(-3).message(), "Invalid frequency: -3");
    assert_eq!(SonifyError::ClientNotInitialized.message(), "K8s client not initialized");
}
