//! Joining a directory and a component.

use vstd::prelude::*;

verus! {

/// The path that `std::path::Path::join` gives for the directory `base` and
/// the component `component`, both taken as text.
///
/// Joining follows the path rules of the system the library is built for:
/// which separator is put between the two, and when a component that is
/// absolute replaces the directory. Those rules are not restated here, so
/// nothing is known of `joined` but that it is a function: the same two texts
/// always give the same path.
pub uninterp spec fn joined(base: Seq<char>, component: Seq<char>) -> Seq<char>;

/// Adjoins `component` to `base` with `std::path::Path::join`.
///
/// Trusted, not proved: what `Path::join` returns, read back as text, depends
/// on the two arguments alone. The contract claims no more than that.
#[verifier::external_body]
pub(crate) fn join(base: &str, component: &str) -> (path: String)
    ensures
        path@ == joined(base@, component@),
{
    std::path::Path::new(base).join(component).to_string_lossy().into_owned()
}

} // verus!
