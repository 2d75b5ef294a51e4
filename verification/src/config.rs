//! Configuration resolution: the annotation's keyed arguments are validated
//! into an `InstrumentArgs` value. Exactly one optional `name` argument is
//! recognized; a duplicate or an unrecognized key is a build-time error.

use vstd::prelude::*;

verus! {

/// One keyed annotation argument, `key = "value"`, already reduced to its
/// key and its string-literal value.
#[derive(Debug)]
pub struct Arg {
    pub key: String,
    pub value: String,
}

/// The validated annotation configuration: at most one explicit base metric
/// name.
#[derive(Debug)]
pub struct InstrumentArgs {
    pub name: Option<String>,
}

impl Default for InstrumentArgs {
    fn default() -> (r: Self)
        ensures
            r.name is None,
    {
        InstrumentArgs { name: None }
    }
}

/// The two build-time failures configuration resolution can produce.
#[derive(Debug)]
pub enum ConfigError {
    /// The `name` argument appeared more than once.
    DuplicateArgument,
    /// A keyed argument other than `name` was present.
    UnrecognizedArgument,
}

impl ConfigError {
    /// The diagnostic the build failure carries.
    pub fn message(&self) -> (r: String)
        ensures
            *self is DuplicateArgument ==> r@ == "expected only a single `name` argument"@,
            *self is UnrecognizedArgument ==> r@ == "unrecognized argument, expected `name`"@,
    {
        match self {
            ConfigError::DuplicateArgument => String::from_str(
                "expected only a single `name` argument",
            ),
            ConfigError::UnrecognizedArgument => String::from_str(
                "unrecognized argument, expected `name`",
            ),
        }
    }
}

impl InstrumentArgs {
    /// Resolves the raw annotation argument list. Succeeds exactly when the
    /// list is empty or holds a single `name` argument; the first offending
    /// argument, scanning left to right, decides which error is reported.
    pub fn parse(args: &Vec<Arg>) -> (r: Result<InstrumentArgs, ConfigError>)
        ensures
            r is Ok <==> (args@.len() == 0 || (args@.len() == 1 && args@[0].key@ == "name"@)),
            r matches Ok(c) ==> (args@.len() == 0 ==> c.name is None),
            r matches Ok(c) ==> (args@.len() == 1 ==> (c.name matches Some(n) && n@
                == args@[0].value@)),
            r matches Err(ConfigError::DuplicateArgument) <==> (args@.len() >= 2 && args@[0].key@
                == "name"@ && args@[1].key@ == "name"@),
            r matches Err(ConfigError::UnrecognizedArgument) <==> ((args@.len() >= 1
                && args@[0].key@ != "name"@) || (args@.len() >= 2 && args@[0].key@ == "name"@
                && args@[1].key@ != "name"@)),
    {
        let name_key: String = String::from_str("name");
        let mut parsed = InstrumentArgs::default();
        let mut i: usize = 0;
        while i < args.len()
            invariant
                i <= 1,
                i <= args.len(),
                name_key@ == "name"@,
                forall|j: int| 0 <= j < i ==> args@[j].key@ == "name"@,
                i == 0 ==> parsed.name is None,
                i == 1 ==> (parsed.name matches Some(n) && n@ == args@[0].value@),
            decreases args.len() - i,
        {
            let a = &args[i];
            if a.key == name_key {
                if parsed.name.is_some() {
                    return Err(ConfigError::DuplicateArgument);
                }
                parsed.name = Some(a.value.clone());
            } else {
                return Err(ConfigError::UnrecognizedArgument);
            }
            i += 1;
        }
        Ok(parsed)
    }
}

} // verus!
