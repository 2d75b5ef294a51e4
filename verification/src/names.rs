//! Metric name derivation: the counter and histogram identifiers for one
//! instrumented function, computed once at build time from either an explicit
//! base name or the function's declaration path.

use vstd::prelude::*;

use crate::config::InstrumentArgs;

verus! {

/// The two metric identifiers generated for one instrumented function.
/// Both are derived from the same base, so the counter and histogram for a
/// function always share a stem.
pub struct MetricNames {
    pub counter_name: String,
    pub histogram_name: String,
}

/// The declaration path joined with single underscores in place of the
/// path separators: `["svc", "create_user"]` becomes `svc_create_user`.
pub open spec fn joined_path(parts: Seq<Seq<char>>) -> Seq<char>
    decreases parts.len(),
{
    if parts.len() == 0 {
        Seq::empty()
    } else if parts.len() == 1 {
        parts[0]
    } else {
        joined_path(parts.drop_last()) + "_"@ + parts.last()
    }
}

/// The base name: the explicit override verbatim when one was supplied,
/// otherwise the declaration path joined with underscores.
pub open spec fn base_name(explicit: Option<Seq<char>>, path: Seq<Seq<char>>) -> Seq<char> {
    match explicit {
        Some(base) => base,
        None => joined_path(path),
    }
}

pub open spec fn counter_name(base: Seq<char>) -> Seq<char> {
    base + "_total"@
}

pub open spec fn histogram_name(base: Seq<char>) -> Seq<char> {
    base + "_duration_seconds"@
}

/// The view of a declaration path held as a vector of segment strings.
pub open spec fn path_view(path: Seq<String>) -> Seq<Seq<char>> {
    path.map_values(|p: String| p@)
}

/// Joins the declaration path segments with single underscores.
pub fn join_path(path: &Vec<String>) -> (r: String)
    ensures
        r@ == joined_path(path_view(path@)),
{
    let ghost m = path_view(path@);
    let mut out = String::new();
    let mut i: usize = 0;
    while i < path.len()
        invariant
            i <= path.len(),
            m == path_view(path@),
            m.len() == path@.len(),
            out@ == joined_path(m.take(i as int)),
        decreases path.len() - i,
    {
        if i > 0 {
            out.append("_");
        }
        out.append(path[i].as_str());
        proof {
            let t = m.take(i as int + 1);
            assert(t.last() == m[i as int]);
            if i == 0 {
                assert(out@ =~= joined_path(t));
            } else {
                assert(t.drop_last() =~= m.take(i as int));
                assert(joined_path(t) == joined_path(t.drop_last()) + "_"@ + t.last());
                assert(out@ == joined_path(t));
            }
        }
        i += 1;
    }
    proof {
        assert(m.take(path@.len() as int) =~= m);
    }
    out
}

/// Derives the counter and histogram identifiers from the resolved
/// configuration and the function's declaration path. With an explicit base
/// name the path plays no part; otherwise the base is the path joined with
/// underscores. Both identifiers extend the same base.
pub fn derive_metric_names(args: &InstrumentArgs, path: &Vec<String>) -> (r: MetricNames)
    ensures
        r.counter_name@ == counter_name(base_name(spec_explicit(args.name), path_view(path@))),
        r.histogram_name@ == histogram_name(base_name(spec_explicit(args.name), path_view(path@))),
{
    let base = match &args.name {
        Some(explicit) => explicit.clone(),
        None => join_path(path),
    };
    let histogram = base.clone().concat("_duration_seconds");
    let counter = base.concat("_total");
    MetricNames { counter_name: counter, histogram_name: histogram }
}

/// The view of an optional explicit base name.
pub open spec fn spec_explicit(name: Option<String>) -> Option<Seq<char>> {
    match name {
        Some(s) => Some(s@),
        None => None,
    }
}

/// The counter and histogram identifiers derived from one base always share
/// their stem: each begins with that base and ends in its own fixed suffix.
pub proof fn lemma_names_share_stem(base: Seq<char>)
    ensures
        counter_name(base).take(base.len() as int) == base,
        histogram_name(base).take(base.len() as int) == base,
        counter_name(base).skip(base.len() as int) == "_total"@,
        histogram_name(base).skip(base.len() as int) == "_duration_seconds"@,
{
    assert(counter_name(base).take(base.len() as int) =~= base);
    assert(histogram_name(base).take(base.len() as int) =~= base);
    assert(counter_name(base).skip(base.len() as int) =~= "_total"@);
    assert(histogram_name(base).skip(base.len() as int) =~= "_duration_seconds"@);
}

/// An explicit base name fixes the derived identifiers: the declaration path
/// plays no part in them.
pub proof fn lemma_explicit_name_ignores_path(
    explicit: Seq<char>,
    path1: Seq<Seq<char>>,
    path2: Seq<Seq<char>>,
)
    ensures
        counter_name(base_name(Some(explicit), path1)) == counter_name(
            base_name(Some(explicit), path2),
        ),
        histogram_name(base_name(Some(explicit), path1)) == histogram_name(
            base_name(Some(explicit), path2),
        ),
{
}

} // verus!
