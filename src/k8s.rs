//! The rules that turn cluster state into metric values.

pub mod status;

pub use status::{
    estimated_errors, estimated_latency_ms, has_pressure, metric_source, pod_phase_index,
    total_replicas, MetricSource,
};
