//! The label extraction protocol: a priority-ordered pair of capabilities,
//! resolved per call site at build time, that derives descriptive labels from
//! a wrapped function's return value. Outcome-shaped values (success or
//! failure) yield a `result` label; every other type falls back to the
//! universal capability, which yields no labels.

use vstd::prelude::*;

verus! {

/// One label: a key and a value.
pub struct Label {
    pub key: String,
    pub value: String,
}

/// An ordered mapping from label key to label value, produced once per call
/// and consumed immediately by the metric emission calls.
pub struct LabelSet {
    pub entries: Vec<Label>,
}

impl LabelSet {
    /// The entries as a sequence of key/value character sequences.
    pub open spec fn spec_entries(self) -> Seq<(Seq<char>, Seq<char>)> {
        self.entries@.map_values(|l: Label| (l.key@, l.value@))
    }

    /// The empty label set.
    pub fn empty() -> (r: LabelSet)
        ensures
            r.spec_entries() == Seq::<(Seq<char>, Seq<char>)>::empty(),
    {
        let r = LabelSet { entries: Vec::new() };
        proof {
            assert(r.spec_entries() =~= Seq::<(Seq<char>, Seq<char>)>::empty());
        }
        r
    }

    /// A label set holding a single label.
    pub fn single(key: &str, value: &str) -> (r: LabelSet)
        ensures
            r.spec_entries() == seq![(key@, value@)],
    {
        let mut entries: Vec<Label> = Vec::new();
        entries.push(Label { key: key.to_owned(), value: value.to_owned() });
        let r = LabelSet { entries };
        proof {
            assert(r.spec_entries() =~= seq![(key@, value@)]);
        }
        r
    }
}

/// The labels the outcome capability derives from a success variant.
pub open spec fn ok_labels() -> Seq<(Seq<char>, Seq<char>)> {
    seq![("result"@, "ok"@)]
}

/// The labels the outcome capability derives from a failure variant.
pub open spec fn err_labels() -> Seq<(Seq<char>, Seq<char>)> {
    seq![("result"@, "err"@)]
}

/// The labels derived from an outcome-shaped value: only the variant matters,
/// never the payload.
pub open spec fn outcome_labels<T, E>(v: Result<T, E>) -> Seq<(Seq<char>, Seq<char>)> {
    if v is Ok {
        ok_labels()
    } else {
        err_labels()
    }
}

/// The universal default capability: applicable to every type, it derives no
/// labels at all, whatever the value holds.
pub trait GetLabels {
    fn __metrics_attributes_get_labels(&self) -> (r: LabelSet)
        ensures
            r.spec_entries() == Seq::<(Seq<char>, Seq<char>)>::empty(),
    ;
}

/// The outcome capability: applicable to any success-or-failure shaped value.
/// It inspects only the variant discriminant, so it serves every payload type.
pub trait GetLabelsFromResult {
    /// The labels this value's variant determines.
    spec fn spec_labels(&self) -> Seq<(Seq<char>, Seq<char>)>;

    fn __metrics_attributes_get_labels(&self) -> (r: LabelSet)
        ensures
            r.spec_entries() == self.spec_labels(),
    ;
}

impl<T, E> GetLabelsFromResult for Result<T, E> {
    open spec fn spec_labels(&self) -> Seq<(Seq<char>, Seq<char>)> {
        outcome_labels(*self)
    }

    fn __metrics_attributes_get_labels(&self) -> (r: LabelSet) {
        match self {
            Ok(_) => LabelSet::single("result", "ok"),
            Err(_) => LabelSet::single("result", "err"),
        }
    }
}

/// The fallback is implemented for references, and the generated code calls
/// the label method on a reference to the produced value. From that receiver,
/// method resolution finds the outcome capability at the reference itself
/// where it applies, and only otherwise auto-references once more to reach
/// this impl: the most specific capability wins, and every type resolves to
/// one of the two.
impl<T> GetLabels for &T {
    fn __metrics_attributes_get_labels(&self) -> (r: LabelSet) {
        LabelSet::empty()
    }
}

} // verus!
