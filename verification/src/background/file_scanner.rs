//! Which files of the media directory the scanner passes on: those with an
//! audio extension, in any letter case.
use vstd::prelude::*;
use crate::text::{ascii_lower, str_equals, to_ascii_lowercase};

verus! {

/// What the file scanner is asked to do.
#[derive(Debug, Clone, Copy, PartialEq, Eq, Structural)]
pub enum FileScannerAction {
    ScanFiles,
}

/// The extensions a file may have to be passed on, kept in small letters.
pub struct ExtensionFilter {
    allowed: Vec<String>,
}

/// What `Path::extension` gives for the path `path`, as text.
pub uninterp spec fn spec_path_extension(path: Seq<char>) -> Option<Seq<char>>;

/// The extension of the last component of `path` (`Path::extension`): what
/// follows its last dot; `None` when it has no file name, no dot, or only a
/// leading dot. The standard library's rules for that are not restated
/// here.
#[verifier::external_body]
fn path_extension(path: &str) -> (r: Option<String>)
    ensures
        match r {
            Some(e) => spec_path_extension(path@) == Some(e@),
            None => spec_path_extension(path@) is None,
        },
{
    std::path::Path::new(path).extension().and_then(|e| e.to_str()).map(|e| e.to_string())
}

/// Whether `allowed` holds `ext`.
fn contains_text(allowed: &Vec<String>, ext: &str) -> (r: bool)
    ensures
        r == exists|i: int| 0 <= i < allowed@.len() && #[trigger] allowed@[i]@ == ext@,
{
    let mut i: usize = 0;
    while i < allowed.len()
        invariant
            i <= allowed@.len(),
            forall|j: int| 0 <= j < i ==> #[trigger] allowed@[j]@ != ext@,
        decreases allowed@.len() - i,
    {
        if str_equals(allowed[i].as_str(), ext) {
            return true;
        }
        i = i + 1;
    }
    false
}

/// The filter passing the extensions `exts`, whatever their letter case.
pub fn extension_filter(exts: Vec<&str>) -> (r: ExtensionFilter)
    ensures
        r.allowed().len() == exts@.len(),
        forall|i: int| 0 <= i < exts@.len() ==> #[trigger] r.allowed()[i] == ascii_lower(exts@[i]@),
{
    let mut allowed: Vec<String> = Vec::new();
    let mut i: usize = 0;
    while i < exts.len()
        invariant
            i <= exts@.len(),
            allowed@.len() == i,
            forall|j: int| 0 <= j < i ==> #[trigger] allowed@[j]@ == ascii_lower(exts@[j]@),
        decreases exts@.len() - i,
    {
        allowed.push(to_ascii_lowercase(exts[i]));
        i = i + 1;
    }
    ExtensionFilter { allowed }
}

impl ExtensionFilter {
    /// The extensions passed, in small letters.
    pub closed spec fn allowed(&self) -> Seq<Seq<char>> {
        self.allowed@.map_values(|s: String| s@)
    }

    /// Whether a file with the extension `extension` (`None`: none) is
    /// passed: its extension in small letters is one of those passed.
    pub fn matches_extension(&self, extension: Option<&str>) -> (r: bool)
        ensures
            r == (match extension {
                Some(e) => self.allowed().contains(ascii_lower(e@)),
                None => false,
            }),
    {
        match extension {
            Some(e) => {
                let lower = to_ascii_lowercase(e);
                let found = contains_text(&self.allowed, lower.as_str());
                proof {
                    if found {
                        let i = choose|i: int| 0 <= i < self.allowed@.len() && #[trigger] self.allowed@[i]@ == lower@;
                        assert(self.allowed()[i] == ascii_lower(e@));
                    } else {
                        assert forall|i: int| 0 <= i < self.allowed().len() implies self.allowed()[i] != ascii_lower(e@) by {
                            assert(self.allowed()[i] == self.allowed@[i]@);
                        }
                    }
                }
                found
            },
            None => false,
        }
    }

    /// Whether the file at `path` is passed.
    pub fn matches(&self, path: &str) -> (r: bool)
        ensures
            r == (match spec_path_extension(path@) {
                Some(e) => self.allowed().contains(ascii_lower(e)),
                None => false,
            }),
    {
        let ext = path_extension(path);
        match ext {
            Some(e) => self.matches_extension(Some(e.as_str())),
            None => false,
        }
    }
}

/// An extension given to `extension_filter` passes in any letter case.
pub proof fn law_listed_extension_passes(exts: Seq<Seq<char>>, allowed: Seq<Seq<char>>, i: int, e: Seq<char>)
    requires
        allowed.len() == exts.len(),
        forall|j: int| 0 <= j < exts.len() ==> #[trigger] allowed[j] == ascii_lower(exts[j]),
        0 <= i < exts.len(),
        ascii_lower(e) == ascii_lower(exts[i]),
    ensures
        allowed.contains(ascii_lower(e)),
{
    assert(allowed[i] == ascii_lower(e));
}

} // verus!
