//! Build-time instrumentation weaving: given a description of a function
//! declaration, derive a pair of metric identifiers (an invocation counter and
//! a duration histogram) and produce a wrapped declaration that records both
//! metrics around every call, optionally attaching labels derived from the
//! returned value.

pub mod config;
pub mod labels;
pub mod names;
pub mod runtime;
pub mod transform;
