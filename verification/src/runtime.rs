//! The runtime completion steps of a generated wrapper, once the wrapped
//! body's value and the elapsed time are at hand: extract labels from the
//! value, assemble the histogram observation and the counter increment for
//! the metrics sink, and hand the value back unchanged. Each call runs these
//! steps independently; nothing persists between calls.

use vstd::prelude::*;

use crate::labels::GetLabels;
use crate::labels::GetLabelsFromResult;
use crate::labels::LabelSet;
use crate::labels::outcome_labels;
use crate::names::MetricNames;

verus! {

/// What one wrapped call hands to the metrics sink: one histogram observation
/// of the elapsed time and one counter increment, under the function's two
/// derived names and a single shared label set.
pub struct MetricEmission {
    pub histogram_name: String,
    pub elapsed_nanos: u64,
    pub counter_name: String,
    pub labels: LabelSet,
}

/// Completes a wrapped call whose return type is outcome-shaped: the label
/// set records the variant, both emissions carry the derived names, and the
/// produced value goes back to the caller untouched, success and failure
/// alike.
pub fn complete_outcome_call<T, E>(
    value: Result<T, E>,
    elapsed_nanos: u64,
    names: &MetricNames,
) -> (r: (Result<T, E>, MetricEmission))
    ensures
        r.0 == value,
        r.1.labels.spec_entries() == outcome_labels(value),
        r.1.histogram_name@ == names.histogram_name@,
        r.1.counter_name@ == names.counter_name@,
        r.1.elapsed_nanos == elapsed_nanos,
{
    let labels = value.__metrics_attributes_get_labels();
    let emission = MetricEmission {
        histogram_name: names.histogram_name.clone(),
        elapsed_nanos,
        counter_name: names.counter_name.clone(),
        labels,
    };
    (value, emission)
}

/// Completes a wrapped call whose return type is not outcome-shaped: the
/// universal capability applies, so the label set is empty whatever the value
/// holds, and the value goes back to the caller untouched.
pub fn complete_plain_call<T>(value: T, elapsed_nanos: u64, names: &MetricNames) -> (r: (
    T,
    MetricEmission,
))
    ensures
        r.0 == value,
        r.1.labels.spec_entries() == Seq::<(Seq<char>, Seq<char>)>::empty(),
        r.1.histogram_name@ == names.histogram_name@,
        r.1.counter_name@ == names.counter_name@,
        r.1.elapsed_nanos == elapsed_nanos,
{
    let labels = (&value).__metrics_attributes_get_labels();
    let emission = MetricEmission {
        histogram_name: names.histogram_name.clone(),
        elapsed_nanos,
        counter_name: names.counter_name.clone(),
        labels,
    };
    (value, emission)
}

} // verus!
