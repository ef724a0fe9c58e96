//! The parts of the run configuration that the library reads.

use vstd::prelude::*;

verus! {

/// Which cluster and namespace to watch, and how to reach it.
pub struct KubernetesConfig {
    pub namespace: String,
    pub use_kubeconfig: bool,
    pub api_url: Option<String>,
}

/// How often to poll and how to report.
pub struct MonitoringConfig {
    /// Seconds between two polls.
    pub poll_interval: u64,
    pub verbose: bool,
    pub use_color: bool,
}

/// The metrics to poll, by name, in the order they are reported.
pub struct MetricsConfig {
    pub enabled: Vec<String>,
}

impl Default for KubernetesConfig {
    /// The `default` namespace, reached through the user's kubeconfig.
    fn default() -> (r: Self)
        ensures
            r.namespace@ == "default"@,
            r.use_kubeconfig,
            r.api_url is None,
    {
        KubernetesConfig {
            namespace: String::from_str("default"),
            use_kubeconfig: true,
            api_url: None,
        }
    }
}

impl Default for MonitoringConfig {
    /// A poll every five seconds, quiet, in colour.
    fn default() -> (r: Self)
        ensures
            r.poll_interval == 5,
            !r.verbose,
            r.use_color,
    {
        MonitoringConfig { poll_interval: 5, verbose: false, use_color: true }
    }
}

impl Default for MetricsConfig {
    /// All seven known metrics.
    fn default() -> (r: Self)
        ensures
            r.enabled@.map_values(|s: String| s@) == seq![
                "cpu_usage"@,
                "memory_usage"@,
                "pod_status"@,
                "http_latency"@,
                "errors_per_second"@,
                "replicas"@,
                "node_pressure"@,
            ],
    {
        let enabled = vec![
            String::from_str("cpu_usage"),
            String::from_str("memory_usage"),
            String::from_str("pod_status"),
            String::from_str("http_latency"),
            String::from_str("errors_per_second"),
            String::from_str("replicas"),
            String::from_str("node_pressure"),
        ];
        let r = MetricsConfig { enabled };
        assert(r.enabled@.map_values(|s: String| s@) =~= seq![
            "cpu_usage"@,
            "memory_usage"@,
            "pod_status"@,
            "http_latency"@,
            "errors_per_second"@,
            "replicas"@,
            "node_pressure"@,
        ]);
        r
    }
}

} // verus!
