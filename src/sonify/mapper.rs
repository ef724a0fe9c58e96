//! Selection of a note and a colour for a metric value.

use vstd::arithmetic::div_mod::{lemma_div_by_multiple, lemma_div_is_ordered, lemma_div_pos_is_pos};
use vstd::arithmetic::mul::{lemma_mul_inequality, lemma_mul_nonnegative};
use vstd::prelude::*;

use crate::error::SonifyError;
use crate::sonify::sound_map::{all_marked, is_marked_color, MetricConfig, SoundMap};
use crate::text::same_text;

verus! {

/// `v` held inside `[lo, hi]`.
pub open spec fn clamp(v: int, lo: int, hi: int) -> int {
    if v < lo {
        lo
    } else if v > hi {
        hi
    } else {
        v
    }
}

/// The bucket of `v` among `n` equal buckets over `[lo, hi]`: the position of
/// the clamped value in the range, scaled to `n - 1` and truncated downwards.
/// An empty or inverted range always gives bucket 0.
pub open spec fn bucket(v: int, n: int, lo: int, hi: int) -> int {
    if hi <= lo {
        0
    } else {
        (clamp(v, lo, hi) - lo) * (n - 1) / (hi - lo)
    }
}

proof fn lemma_scaled_bounds(a: int, k: int, s: int)
    requires
        0 <= a <= s,
        0 < s,
        0 <= k,
    ensures
        0 <= a * k / s <= k,
{
    lemma_mul_nonnegative(a, k);
    lemma_div_pos_is_pos(a * k, s);
    lemma_mul_inequality(a, s, k);
    lemma_div_is_ordered(a * k, s * k, s);
    assert(s * k == k * s) by (nonlinear_arith);
    lemma_div_by_multiple(k, s);
}

/// Bucketing never leaves `[0, n - 1]` and never decreases as the value grows.
pub proof fn lemma_bucket_monotone(v1: int, v2: int, n: int, lo: int, hi: int)
    requires
        n >= 1,
        v1 <= v2,
    ensures
        0 <= bucket(v1, n, lo, hi) <= bucket(v2, n, lo, hi) <= n - 1,
{
    if lo < hi {
        let a1 = clamp(v1, lo, hi) - lo;
        let a2 = clamp(v2, lo, hi) - lo;
        lemma_scaled_bounds(a1, n - 1, hi - lo);
        lemma_scaled_bounds(a2, n - 1, hi - lo);
        lemma_mul_inequality(a1, a2, n - 1);
        lemma_div_is_ordered(a1 * (n - 1), a2 * (n - 1), hi - lo);
    }
}

/// The bottom of a proper range falls in the first bucket and the top in the last.
pub proof fn lemma_bucket_endpoints(n: int, lo: int, hi: int)
    requires
        n >= 1,
        lo < hi,
    ensures
        bucket(lo, n, lo, hi) == 0,
        bucket(hi, n, lo, hi) == n - 1,
{
    assert(0 * (n - 1) == 0);
    lemma_div_by_multiple(n - 1, hi - lo);
    assert((hi - lo) * (n - 1) == (n - 1) * (hi - lo)) by (nonlinear_arith);
}

/// Index of the note for `value` among `notes_length` notes spread evenly over
/// `[min_value, max_value]`.
pub fn calculate_index(value: i64, notes_length: usize, min_value: i64, max_value: i64) -> (r:
    usize)
    requires
        notes_length > 0 || max_value <= min_value,
    ensures
        r == bucket(value as int, notes_length as int, min_value as int, max_value as int),
        max_value <= min_value ==> r == 0,
        min_value < max_value ==> r < notes_length,
{
    if max_value <= min_value {
        return 0;
    }
    let clamped: i64 = if value < min_value {
        min_value
    } else if value > max_value {
        max_value
    } else {
        value
    };
    let offset: u128 = (clamped as i128 - min_value as i128) as u128;
    let span: u128 = (max_value as i128 - min_value as i128) as u128;
    let steps: u128 = (notes_length - 1) as u128;
    proof {
        lemma_mul_inequality(offset as int, span as int, steps as int);
        assert(span * steps <= 0xffff_ffff_ffff_ffffu128 * 0xffff_ffff_ffff_ffffu128)
            by (nonlinear_arith)
            requires
                span <= 0xffff_ffff_ffff_ffffu128,
                steps <= 0xffff_ffff_ffff_ffffu128,
        ;
        lemma_scaled_bounds(offset as int, steps as int, span as int);
    }
    let idx: u128 = offset * steps / span;
    assert(clamped - min_value == offset);
    idx as usize
}

/// The colour shown when a colour list is empty: mid gray.
pub open spec fn fallback_color() -> Seq<char> {
    seq!['#', '8', '0', '8', '0', '8', '0']
}

/// The colour at `index`, the last colour where `index` runs past the list,
/// and the fallback gray for an empty list.
pub open spec fn color_at(colors: Seq<String>, index: int) -> Seq<char> {
    if index < colors.len() {
        colors[index]@
    } else if colors.len() > 0 {
        colors.last()@
    } else {
        fallback_color()
    }
}

/// Where every colour of a list starts with `#`, the colour picked for any
/// index, past the end or from an empty list included, is non-empty and
/// starts with `#`.
pub proof fn lemma_color_is_marked(colors: Seq<String>, index: int)
    requires
        0 <= index,
        all_marked(colors),
    ensures
        is_marked_color(color_at(colors, index)),
{
    if index >= colors.len() && colors.len() > 0 {
        assert(is_marked_color(colors[colors.len() - 1]@));
    }
}

/// Colour for a note index, tolerant of colour lists shorter than the notes.
pub fn get_color(color_list: &[String], index: usize) -> (r: String)
    ensures
        r@ == color_at(color_list@, index as int),
{
    if index < color_list.len() {
        color_list[index].clone()
    } else if color_list.len() > 0 {
        color_list[color_list.len() - 1].clone()
    } else {
        let gray = String::from_str("#808080");
        proof {
            reveal_strlit("#808080");
            assert(gray@ =~= fallback_color());
        }
        gray
    }
}

/// Metric values are whole thousandths of their unit: 1.5 err/s is 1500.
pub const UNIT_SCALE: i64 = 1000;

/// Metrics whose value is already a small status index rather than a measure.
pub open spec fn is_discrete(name: Seq<char>) -> bool {
    name == "pod_status"@ || name == "node_pressure"@
}

/// Top of the value range of a measured metric, in thousandths of its unit.
pub open spec fn ceiling(name: Seq<char>) -> int {
    if name == "http_latency"@ {
        500_000
    } else if name == "errors_per_second"@ {
        10_000
    } else if name == "replicas"@ {
        5_000
    } else {
        100_000
    }
}

/// The note index for `value` of metric `name` with `n` notes: a discrete
/// metric takes its whole part (negatives give 0), a measured one its bucket
/// over `[0, ceiling]`; either is held below `n`.
pub open spec fn metric_index(name: Seq<char>, value: int, n: int) -> int {
    let raw = if is_discrete(name) {
        if value <= 0 {
            0
        } else {
            value / 1000
        }
    } else {
        bucket(value, n, 0, ceiling(name))
    };
    if raw > n - 1 {
        n - 1
    } else {
        raw
    }
}

/// Frequency, note name and colour that `config` gives to `value` of `name`.
pub open spec fn mapping_of(config: MetricConfig, name: Seq<char>, value: int) -> (
    u32,
    Seq<char>,
    Seq<char>,
) {
    let i = metric_index(name, value, config.notes@.len() as int);
    (config.notes@[i].frequency, config.notes@[i].name@, color_at(config.colors@, i))
}

fn ceiling_of(metric_name: &str) -> (r: i64)
    ensures
        r == ceiling(metric_name@),
{
    if same_text(metric_name, "http_latency") {
        500_000
    } else if same_text(metric_name, "errors_per_second") {
        10_000
    } else if same_text(metric_name, "replicas") {
        5_000
    } else {
        100_000
    }
}

/// Frequency, note name and colour for a metric value (in thousandths of the
/// metric's unit), or `InvalidMetric` where the table has no such metric.
pub fn map_metric(metric_name: &str, value: i64, sound_map: &SoundMap) -> (r: Result<
    (u32, String, String),
    SonifyError,
>)
    requires
        sound_map.well_formed(),
    ensures
        sound_map.lookup(metric_name@) is None ==> (r matches Err(SonifyError::InvalidMetric(m))
            && m@ == metric_name@),
        sound_map.lookup(metric_name@) matches Some(c) ==> (r matches Ok(t) && (t.0, t.1@, t.2@)
            == mapping_of(c, metric_name@, value as int)),
{
    let config = match sound_map.get(metric_name) {
        Some(c) => c,
        None => {
            return Err(SonifyError::InvalidMetric(String::from_str(metric_name)));
        },
    };
    proof {
        let k = choose|k: int| sound_map.is_first_match(metric_name@, k);
        assert(sound_map.is_first_match(metric_name@, k));
        assert(sound_map.entries@[k].1.notes@.len() > 0);
    }
    let n = config.notes.len();
    let index: usize = if same_text(metric_name, "pod_status") || same_text(
        metric_name,
        "node_pressure",
    ) {
        let whole: u64 = if value <= 0 {
            0
        } else {
            (value / UNIT_SCALE) as u64
        };
        if whole > (n - 1) as u64 {
            n - 1
        } else {
            whole as usize
        }
    } else {
        calculate_index(value, n, 0, ceiling_of(metric_name))
    };
    let note = &config.notes[index];
    let color = get_color(config.colors.as_slice(), index);
    Ok((note.frequency, note.name.clone(), color))
}

} // verus!
