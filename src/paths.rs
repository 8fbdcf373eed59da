use vstd::prelude::*;

verus! {

/// The path of entry `name` inside directory `dir`, as `Path::join` builds it.
pub uninterp spec fn joined(dir: Seq<char>, name: Seq<char>) -> Seq<char>;

/// Relies on `std::path::Path::join`: the path of `name` inside `dir`. The
/// result depends on the two strings alone, and both are valid UTF-8, so the
/// lossy conversion back to a `String` loses nothing.
#[verifier::external_body]
pub(crate) fn join_path(dir: &String, name: &String) -> (r: String)
    ensures
        r@ == joined(dir@, name@),
{
    std::path::Path::new(dir.as_str()).join(name.as_str()).to_string_lossy().into_owned()
}

} // verus!
