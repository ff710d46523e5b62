//! File name helpers.
use vstd::prelude::*;

verus! {

/// What `Path::file_stem` gives for the path `path`, as text.
pub uninterp spec fn spec_file_stem(path: Seq<char>) -> Option<Seq<char>>;

/// The stem of the last component of `path` (`Path::file_stem`): the file
/// name without its extension; `None` when the path has no file name. The
/// rules for that (trailing separators, `..`, names that start with a dot)
/// are the standard library's and are not restated here.
#[verifier::external_body]
pub fn filename_stem(path: &str) -> (r: Option<String>)
    ensures
        match r {
            Some(s) => spec_file_stem(path@) == Some(s@),
            None => spec_file_stem(path@) is None,
        },
{
    std::path::Path::new(path).file_stem().and_then(|s| s.to_str()).map(|s| s.to_string())
}

} // verus!
