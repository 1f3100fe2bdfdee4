//! Where the cropped image goes: the output path of an input path.

use vstd::prelude::*;

verus! {

/// How an output path is derived from an input path.
#[derive(Debug)]
pub enum NamingPolicy {
    /// The output replaces the input.
    Identity,
    /// The caller names the destination.
    Explicit,
    /// The output path is the prefix followed by the input path as given.
    Prefixed(String),
}

/// The output path that `policy` gives for `input`.
pub open spec fn resolved_path(
    input: Seq<char>,
    explicit_output: Option<Seq<char>>,
    policy: NamingPolicy,
) -> Seq<char> {
    match policy {
        NamingPolicy::Identity => input,
        NamingPolicy::Explicit => explicit_output.unwrap(),
        NamingPolicy::Prefixed(prefix) => prefix@ + input,
    }
}

/// The views of an optional path.
pub open spec fn path_view(path: Option<&str>) -> Option<Seq<char>> {
    match path {
        Some(text) => Some(text@),
        None => None,
    }
}

/// The destination for a source that is cropped in place: the source itself.
pub fn find_destination(source: &String) -> (dest: &String)
    ensures
        dest == source,
{
    source
}

/// Derives the output path of `input`.
///
/// Under `Explicit` the caller supplies the destination in `explicit_output`.
/// Under `Prefixed` the prefix is put before the whole input path, character
/// for character: no path segment is taken apart or joined.
pub fn resolve(input: &str, explicit_output: Option<&str>, policy: &NamingPolicy) -> (output:
    String)
    requires
        policy is Explicit ==> explicit_output is Some,
    ensures
        output@ == resolved_path(input@, path_view(explicit_output), *policy),
        policy is Identity ==> output@ == input@,
        policy is Explicit ==> output@ == explicit_output.unwrap()@,
        policy matches NamingPolicy::Prefixed(prefix) ==> output@ == prefix@ + input@,
{
    match policy {
        NamingPolicy::Identity => input.to_owned(),
        NamingPolicy::Explicit => explicit_output.unwrap().to_owned(),
        NamingPolicy::Prefixed(prefix) => prefix.clone().concat(input),
    }
}

} // verus!
