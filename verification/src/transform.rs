//! The function transformer: rewrites a declared function into an
//! instrumented one with an identical external signature. The generated body
//! captures a start timestamp, evaluates the original body (driving it to
//! completion when it suspends), extracts labels from the produced value,
//! emits the histogram observation and the counter increment, and returns the
//! value unchanged.

use vstd::prelude::*;

use crate::config::InstrumentArgs;
use crate::names::base_name;
use crate::names::counter_name;
use crate::names::derive_metric_names;
use crate::names::histogram_name;
use crate::names::path_view;
use crate::names::spec_explicit;

verus! {

/// A function declaration as the transformer sees it: the parts that are kept
/// verbatim (visibility and signature), whether the body is a suspending
/// computation, and the body's statements.
pub struct FunctionDescriptor {
    pub visibility: String,
    pub signature: String,
    pub is_suspending: bool,
    pub body: String,
}

/// The evaluation of the original body. A suspending body is wrapped in an
/// async block and driven to completion with `.await` — the block introduces
/// no suspension points beyond the original body's own — so the value, and
/// with it the timer read, only arrives after every suspension has resumed.
/// A direct body evaluates in place.
pub open spec fn evaluated_body(body: Seq<char>, is_suspending: bool) -> Seq<char> {
    if is_suspending {
        "(async move { "@ + body + " }).await"@
    } else {
        "{ "@ + body + " }"@
    }
}

/// The generated body: timestamp capture, evaluation of the original body,
/// label extraction, the two metric emissions, and the untouched value as the
/// result. The label call takes its receiver by reference: from a reference,
/// method resolution reaches the outcome capability on an outcome-shaped
/// value and the universal fallback on every other type.
pub open spec fn wrapped_body(
    body: Seq<char>,
    is_suspending: bool,
    hist: Seq<char>,
    ctr: Seq<char>,
) -> Seq<char> {
    "let __metrics_attributes_start = ::std::time::Instant::now(); let ret = "@ + evaluated_body(
        body,
        is_suspending,
    )
        + "; { use ::metrics_attributes::labels::{GetLabels, GetLabelsFromResult}; let labels = (&ret).__metrics_attributes_get_labels(); let duration = __metrics_attributes_start.elapsed().as_secs_f64(); ::metrics::histogram!(\""@
        + hist + "\", duration, labels); ::metrics::increment_counter!(\""@ + ctr
        + "\", labels); } ret"@
}

/// The full rendered declaration: visibility (when any), signature and body,
/// the first two exactly as they stood on the input.
pub open spec fn rendered_declaration(vis: Seq<char>, sig: Seq<char>, body: Seq<char>) -> Seq<char> {
    if vis.len() == 0 {
        sig + " { "@ + body + " }"@
    } else {
        vis + " "@ + sig + " { "@ + body + " }"@
    }
}

/// Rewrites one declaration. The visibility, signature and suspension mode of
/// the result are those of the input, so every call site is unaffected; only
/// the body is replaced by the instrumented one, built around the metric
/// names derived from the configuration and the declaration path.
pub fn instrument_inner(args: &InstrumentArgs, item: FunctionDescriptor, path: &Vec<String>) -> (r:
    FunctionDescriptor)
    ensures
        r.visibility@ == item.visibility@,
        r.signature@ == item.signature@,
        r.is_suspending == item.is_suspending,
        r.body@ == wrapped_body(
            item.body@,
            item.is_suspending,
            histogram_name(base_name(spec_explicit(args.name), path_view(path@))),
            counter_name(base_name(spec_explicit(args.name), path_view(path@))),
        ),
{
    let names = derive_metric_names(args, path);
    let mut body = String::from_str(
        "let __metrics_attributes_start = ::std::time::Instant::now(); let ret = ",
    );
    if item.is_suspending {
        body.append("(async move { ");
        body.append(item.body.as_str());
        body.append(" }).await");
    } else {
        body.append("{ ");
        body.append(item.body.as_str());
        body.append(" }");
    }
    body.append(
        "; { use ::metrics_attributes::labels::{GetLabels, GetLabelsFromResult}; let labels = (&ret).__metrics_attributes_get_labels(); let duration = __metrics_attributes_start.elapsed().as_secs_f64(); ::metrics::histogram!(\"",
    );
    body.append(names.histogram_name.as_str());
    body.append("\", duration, labels); ::metrics::increment_counter!(\"");
    body.append(names.counter_name.as_str());
    body.append("\", labels); } ret");
    let r = FunctionDescriptor {
        visibility: item.visibility,
        signature: item.signature,
        is_suspending: item.is_suspending,
        body,
    };
    proof {
        assert(r.body@ =~= wrapped_body(
            item.body@,
            item.is_suspending,
            histogram_name(base_name(spec_explicit(args.name), path_view(path@))),
            counter_name(base_name(spec_explicit(args.name), path_view(path@))),
        ));
    }
    r
}

/// Renders a declaration as source text, leaving visibility and signature
/// byte-for-byte as they stand in the descriptor.
pub fn render_declaration(item: &FunctionDescriptor) -> (r: String)
    ensures
        r@ == rendered_declaration(item.visibility@, item.signature@, item.body@),
{
    let mut out = String::new();
    if !item.visibility.as_str().is_empty() {
        out.append(item.visibility.as_str());
        out.append(" ");
    }
    out.append(item.signature.as_str());
    out.append(" { ");
    out.append(item.body.as_str());
    out.append(" }");
    proof {
        assert(out@ =~= rendered_declaration(item.visibility@, item.signature@, item.body@));
    }
    out
}

} // verus!
