//! Text helpers that lean on std: case folding and path basenames.
use vstd::prelude::*;

verus! {

/// What `str::to_lowercase` returns for a string; it depends on the characters alone.
pub uninterp spec fn lower_of(s: Seq<char>) -> Seq<char>;

/// What `Path::file_name` gives for a path written as text: the final component,
/// or `None` where the path ends in `..` or is a bare root.
pub uninterp spec fn file_name_of(path: Seq<char>) -> Option<Seq<char>>;

/// Relies on `str::to_lowercase`: the lowercase form, a function of the input alone.
#[verifier::external_body]
pub(crate) fn lowercase(s: &str) -> (r: String)
    ensures
        r@ == lower_of(s@),
{
    s.to_lowercase()
}

/// Relies on `std::path::Path::file_name`: the last component of the path, if any.
/// A component of a `&str` path is valid UTF-8, so `to_str` never fails here.
#[verifier::external_body]
fn path_file_name(path: &str) -> (r: Option<String>)
    ensures
        match r {
            Some(n) => file_name_of(path@) == Some(n@),
            None => file_name_of(path@) is None,
        },
{
    std::path::Path::new(path).file_name().and_then(|n| n.to_str()).map(|n| n.to_string())
}

/// The name a program is known by: the basename of its path, or `unknown`.
pub open spec fn command_name_spec(program: Seq<char>) -> Seq<char> {
    match file_name_of(program) {
        Some(n) => n,
        None => "unknown"@,
    }
}

/// Resolves the command name of an executable path: its basename, or `unknown`
/// where the path has none.
pub fn command_name_of(program: &str) -> (r: String)
    ensures
        r@ == command_name_spec(program@),
{
    match path_file_name(program) {
        Some(n) => n,
        None => {
            proof {
                reveal_strlit("unknown");
            }
            String::from_str("unknown")
        },
    }
}

} // verus!
