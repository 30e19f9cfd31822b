use vstd::prelude::*;

verus! {

/// Relies on pathsearch::find_executable_in_path: resolves `name`
/// against the directories of the PATH environment variable (and, on
/// Windows, the PATHEXT extensions). What it finds depends on the
/// machine's environment and disk, so nothing is promised of the
/// result; callers decide from whichever answer comes back.
#[verifier::external_body]
pub(crate) fn find_in_path(name: &str) -> (r: Option<String>) {
    pathsearch::find_executable_in_path(name).map(|p| p.to_string_lossy().into_owned())
}

} // verus!
