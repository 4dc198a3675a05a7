//! Finding `.deb` files by package name in what a walk of a directory tree
//! hands over.

use vstd::prelude::*;
use vstd::pervasive::unreached;
use crate::name::{package_name, package_of, NameError};
use crate::text::{ends_with, lemma_first_occurrence, lemma_no_occurrence};

verus! {

/// One entry met on a walk, as plain values.
pub struct FoundEntry {
    /// Whether the entry is a directory.
    pub is_dir: bool,
    /// The entry's own name, where it is valid text.
    pub file_name: Option<String>,
    /// The entry's full path, where it is valid text.
    pub path: Option<String>,
}

/// The names in `packages`, each as its characters.
pub open spec fn names(packages: Seq<String>) -> Seq<Seq<char>> {
    packages.map_values(|s: String| s@)
}

/// Whether a walk keeps an entry: every directory, so that it is descended
/// into, and every entry whose name ends in `.deb`.
pub open spec fn keeps(is_dir: bool, file_name: Option<Seq<char>>) -> bool {
    is_dir || (file_name is Some && ".deb"@.is_suffix_of(file_name->Some_0))
}

impl FoundEntry {
    /// Whether the entry is a file whose name is known and holds no `_`.
    pub open spec fn is_malformed(&self) -> bool {
        !self.is_dir && self.file_name is Some && !self.file_name->Some_0@.contains('_')
    }

    /// The path and the position among `packages` of the entry's package:
    /// nothing for a directory, for an entry whose name or path is no valid
    /// text, and for a package that is not wanted; else the first position
    /// at which `packages` holds the package's name.
    pub open spec fn located(&self, packages: Seq<String>) -> Option<(Seq<char>, int)> {
        if self.is_dir || self.file_name is None || self.path is None {
            None
        } else {
            match names(packages).index_of_first(package_of(self.file_name->Some_0@)) {
                Some(i) => Some((self.path->Some_0@, i)),
                None => None,
            }
        }
    }
}

/// What `found` says as plain values.
pub open spec fn found_view(found: Option<(String, usize)>) -> Option<(Seq<char>, int)> {
    match found {
        Some((path, index)) => Some((path@, index as int)),
        None => None,
    }
}

/// Whether a walk for `.deb` files keeps an entry with this name.
pub fn is_deb(is_dir: bool, file_name: Option<&str>) -> (r: bool)
    ensures
        r == keeps(
            is_dir,
            match file_name {
                Some(n) => Some(n@),
                None => None,
            },
        ),
{
    if is_dir {
        true
    } else {
        match file_name {
            Some(name) => ends_with(name, ".deb"),
            None => false,
        }
    }
}

/// The first position at which `packages` holds `package`.
pub fn position_of(packages: &[String], package: &str) -> (r: Option<usize>)
    ensures
        match r {
            Some(i) => names(packages@).index_of_first(package@) == Some(i as int),
            None => names(packages@).index_of_first(package@) is None,
        },
        r is Some ==> r->Some_0 < packages@.len(),
{
    let wanted = String::from_str(package);
    let n: usize = packages.len();
    let mut i: usize = 0;
    while i < n
        invariant
            n == packages@.len(),
            i <= n,
            wanted@ == package@,
            forall|j: int| 0 <= j < i ==> names(packages@)[j] != package@,
        decreases n - i,
    {
        if packages[i] == wanted {
            proof {
                assert(names(packages@)[i as int] == package@);
                lemma_first_occurrence(names(packages@), package@, i as int);
            }
            return Some(i);
        }
        assert(names(packages@)[i as int] == packages@[i as int]@);
        i += 1;
    }
    proof {
        lemma_no_occurrence(names(packages@), package@);
    }
    None
}

/// Matches an entry against the wanted packages, and refuses the name of a
/// file that holds no `_`.
pub fn try_match_deb(entry: &FoundEntry, packages: &[String]) -> (r: Result<
    Option<(String, usize)>,
    NameError,
>)
    ensures
        r is Err <==> entry.is_malformed(),
        r is Err ==> r->Err_0 == NameError::MalformedName,
        r is Ok ==> found_view(r->Ok_0) == entry.located(packages@),
        r is Ok && r->Ok_0 is Some ==> r->Ok_0->Some_0.1 < packages@.len(),
{
    if entry.is_dir {
        return Ok(None);
    }
    let name = match &entry.file_name {
        Some(name) => name,
        None => {
            return Ok(None);
        },
    };
    let package = match package_name(name.as_str()) {
        Ok(package) => package,
        Err(e) => {
            return Err(e);
        },
    };
    match position_of(packages, package) {
        Some(index) => match &entry.path {
            Some(path) => Ok(Some((path.clone(), index))),
            None => Ok(None),
        },
        None => Ok(None),
    }
}

/// Matches an entry against the wanted packages: the entry's path and the
/// position of its package among `packages`. The name of a file must hold
/// a `_`.
pub fn match_deb(entry: &FoundEntry, packages: &[String]) -> (r: Option<(String, usize)>)
    requires
        !entry.is_malformed(),
    ensures
        found_view(r) == entry.located(packages@),
        r is Some ==> r->Some_0.1 < packages@.len(),
{
    match try_match_deb(entry, packages) {
        Ok(found) => found,
        Err(_) => unreached(),
    }
}

} // verus!
