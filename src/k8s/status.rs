//! Metric values derived from pod phases, node conditions and replica counts.

use vstd::prelude::*;

use crate::text::same_text;

verus! {

/// The cluster reading that a metric is computed from.
#[derive(PartialEq, Eq, Structural, Clone, Copy, Debug)]
pub enum MetricSource {
    /// Requested CPU across the namespace's pods.
    CpuUsage,
    /// Requested memory across the namespace's pods.
    MemoryUsage,
    /// Phase of the namespace's first pod.
    PodStatus,
    /// Latency estimated from the pod phase.
    HttpLatency,
    /// Error rate estimated from the pod phase.
    ErrorsPerSecond,
    /// Mean replica count of the namespace's deployments.
    Replicas,
    /// Whether any node reports pressure.
    NodePressure,
}

/// The reading behind each known metric name.
pub open spec fn source_of(metric: Seq<char>) -> Option<MetricSource> {
    if metric == "cpu_usage"@ {
        Some(MetricSource::CpuUsage)
    } else if metric == "memory_usage"@ {
        Some(MetricSource::MemoryUsage)
    } else if metric == "pod_status"@ {
        Some(MetricSource::PodStatus)
    } else if metric == "http_latency"@ {
        Some(MetricSource::HttpLatency)
    } else if metric == "errors_per_second"@ {
        Some(MetricSource::ErrorsPerSecond)
    } else if metric == "replicas"@ {
        Some(MetricSource::Replicas)
    } else if metric == "node_pressure"@ {
        Some(MetricSource::NodePressure)
    } else {
        None
    }
}

/// The reading to take for `metric`, or `None` for a name with no data source.
pub fn metric_source(metric: &str) -> (r: Option<MetricSource>)
    ensures
        r == source_of(metric@),
{
    if same_text(metric, "cpu_usage") {
        Some(MetricSource::CpuUsage)
    } else if same_text(metric, "memory_usage") {
        Some(MetricSource::MemoryUsage)
    } else if same_text(metric, "pod_status") {
        Some(MetricSource::PodStatus)
    } else if same_text(metric, "http_latency") {
        Some(MetricSource::HttpLatency)
    } else if same_text(metric, "errors_per_second") {
        Some(MetricSource::ErrorsPerSecond)
    } else if same_text(metric, "replicas") {
        Some(MetricSource::Replicas)
    } else if same_text(metric, "node_pressure") {
        Some(MetricSource::NodePressure)
    } else {
        None
    }
}

/// A pod phase that counts as healthy.
pub open spec fn is_healthy_phase(phase: Seq<char>) -> bool {
    phase == "Running"@ || phase == "Succeeded"@
}

/// Status index of a pod phase: 3 when healthy, 1 when pending, else 0.
pub open spec fn phase_index(phase: Seq<char>) -> int {
    if is_healthy_phase(phase) {
        3
    } else if phase == "Pending"@ {
        1
    } else {
        0
    }
}

pub fn pod_phase_index(phase: &str) -> (r: i64)
    ensures
        r == phase_index(phase@),
{
    if same_text(phase, "Running") || same_text(phase, "Succeeded") {
        3
    } else if same_text(phase, "Pending") {
        1
    } else {
        0
    }
}

/// Latency in ms estimated from the pod phase: 50 ms when healthy, 100 ms
/// more for each step of status index below that.
pub fn estimated_latency_ms(phase: &str) -> (r: i64)
    ensures
        r == 50 + (3 - phase_index(phase@)) * 100,
{
    let index = pod_phase_index(phase);
    50 + (3 - index) * 100
}

/// Errors per second estimated from the pod phase: none when healthy, else 5.
pub fn estimated_errors(phase: &str) -> (r: i64)
    ensures
        is_healthy_phase(phase@) ==> r == 0,
        !is_healthy_phase(phase@) ==> r == 5,
{
    if same_text(phase, "Running") || same_text(phase, "Succeeded") {
        0
    } else {
        5
    }
}

/// A node condition type that signals pressure.
pub open spec fn is_pressure_type(t: Seq<char>) -> bool {
    t == "MemoryPressure"@ || t == "DiskPressure"@ || t == "PIDPressure"@ || t
        == "NetworkUnavailable"@
}

/// Whether a node condition, given as (type, status), reports pressure.
pub open spec fn reports_pressure(c: (String, String)) -> bool {
    is_pressure_type(c.0@) && c.1@ == "True"@
}

/// Whether any of the (type, status) node conditions reports pressure.
pub fn has_pressure(conditions: &[(String, String)]) -> (r: bool)
    ensures
        r == exists|i: int| 0 <= i < conditions@.len() && reports_pressure(#[trigger] conditions@[i]),
{
    let mut i: usize = 0;
    while i < conditions.len()
        invariant
            i <= conditions@.len(),
            forall|j: int| 0 <= j < i ==> !reports_pressure(#[trigger] conditions@[j]),
        decreases conditions@.len() - i,
    {
        let c = &conditions[i];
        let t = c.0.as_str();
        let pressure_type = same_text(t, "MemoryPressure") || same_text(t, "DiskPressure")
            || same_text(t, "PIDPressure") || same_text(t, "NetworkUnavailable");
        if pressure_type && same_text(c.1.as_str(), "True") {
            assert(reports_pressure(conditions@[i as int]));
            return true;
        }
        i = i + 1;
    }
    false
}

/// Sum of the replica counts that are set.
pub open spec fn sum_present(s: Seq<Option<i32>>) -> int
    decreases s.len(),
{
    if s.len() == 0 {
        0
    } else {
        sum_present(s.drop_last()) + match s.last() {
            Some(v) => v as int,
            None => 0,
        }
    }
}

/// Total of the replica counts that deployments declare.
pub fn total_replicas(replicas: &[Option<i32>]) -> (r: i64)
    requires
        replicas@.len() <= 0xffff_ffff,
    ensures
        r == sum_present(replicas@),
{
    let mut total: i64 = 0;
    let mut i: usize = 0;
    while i < replicas.len()
        invariant
            i <= replicas@.len() <= 0xffff_ffff,
            total == sum_present(replicas@.subrange(0, i as int)),
            -0x8000_0000 * i <= total <= 0x7fff_ffff * i,
        decreases replicas@.len() - i,
    {
        proof {
            assert(replicas@.subrange(0, i + 1).drop_last() =~= replicas@.subrange(0, i as int));
        }
        match replicas[i] {
            Some(v) => {
                total = total + v as i64;
            },
            None => {},
        }
        i = i + 1;
    }
    assert(replicas@.subrange(0, i as int) =~= replicas@);
    total
}

} // verus!
