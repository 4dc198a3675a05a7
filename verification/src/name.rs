//! Reading a package file's name: `<package>_<version>_<arch>.<ext>` for a
//! binary package, `<package>_<version>.<ext>` for a source artifact.

use vstd::prelude::*;
use crate::text::{ends_with, find_char, rfind_char};

verus! {

/// Why a file name cannot be read as a package file's name.
#[derive(Clone, Copy, Debug, PartialEq, Eq, Structural)]
pub enum NameError {
    /// The name holds no `_`, so no package name can be told from it.
    MalformedName,
}

/// The package name: what stands before the first `_`.
pub open spec fn package_of(name: Seq<char>) -> Seq<char> {
    match name.index_of_first('_') {
        Some(i) => name.take(i),
        None => Seq::empty(),
    }
}

/// The name without its final dot-extension. A name without a dot, or whose
/// only dot is its first character, is its own stem.
pub open spec fn stem_of(name: Seq<char>) -> Seq<char> {
    match name.index_of_last('.') {
        Some(i) => if i > 0 {
            name.take(i)
        } else {
            name
        },
        None => name,
    }
}

/// Whether the name is that of a source artifact: a `.dsc` or a `.tar.xz`.
pub open spec fn is_source_name(name: Seq<char>) -> bool {
    ".dsc"@.is_suffix_of(name) || ".tar.xz"@.is_suffix_of(name)
}

/// The architecture: what follows the last `_` of the stem, or the whole stem
/// where it holds no `_`.
pub open spec fn arch_of(stem: Seq<char>) -> Seq<char> {
    match stem.index_of_last('_') {
        Some(i) => stem.skip(i + 1),
        None => stem,
    }
}

/// A package name without the `-dbgsym` suffix that marks debug symbols.
pub open spec fn strip_dbgsym(package: Seq<char>) -> Seq<char> {
    if "-dbgsym"@.is_suffix_of(package) {
        package.take(package.len() - "-dbgsym"@.len())
    } else {
        package
    }
}

/// The package name under which a file is filed: the package's own name, or,
/// for a package of debug symbols, the name of the package it belongs to.
pub open spec fn display_package_of(name: Seq<char>) -> Seq<char> {
    strip_dbgsym(package_of(name))
}

/// What a package file's name says about the file.
pub struct ParsedName {
    /// The name as given, which stays the file's name in the pool.
    pub filename: String,
    /// The text before the first `_`.
    pub package: String,
    /// The package name that the pool files it under.
    pub display_package: String,
    /// The name without its final extension.
    pub stem: String,
    /// Whether this is a source artifact.
    pub is_source: bool,
    /// The architecture of a binary package; empty for a source artifact.
    pub arch: String,
}

impl ParsedName {
    /// Whether every field is what `name` gives.
    pub open spec fn describes(&self, name: Seq<char>) -> bool {
        &&& self.filename@ == name
        &&& self.package@ == package_of(name)
        &&& self.display_package@ == display_package_of(name)
        &&& self.stem@ == stem_of(name)
        &&& self.is_source == is_source_name(name)
        &&& self.arch@ == if is_source_name(name) {
            Seq::<char>::empty()
        } else {
            arch_of(stem_of(name))
        }
    }
}

/// The text of `name` before its first `_`, or `MalformedName` where it has none.
pub fn package_name(name: &str) -> (r: Result<&str, NameError>)
    ensures
        r is Ok <==> name@.contains('_'),
        r is Ok ==> r->Ok_0@ == package_of(name@),
{
    match find_char(name, '_') {
        Some(i) => {
            proof {
                name@.index_of_first_ensures('_');
            }
            Ok(name.substring_char(0, i))
        },
        None => Err(NameError::MalformedName),
    }
}

/// The name without its final dot-extension.
pub fn file_stem(name: &str) -> (r: &str)
    ensures
        r@ == stem_of(name@),
{
    match rfind_char(name, '.') {
        Some(i) => {
            if i > 0 {
                proof {
                    name@.index_of_last_ensures('.');
                }
                name.substring_char(0, i)
            } else {
                name
            }
        },
        None => name,
    }
}

/// Whether the name ends in `.dsc` or `.tar.xz`.
pub fn is_source(name: &str) -> (r: bool)
    ensures
        r == is_source_name(name@),
{
    ends_with(name, ".dsc") || ends_with(name, ".tar.xz")
}

/// What follows the last `_` of `stem`, or all of it where it holds none.
pub fn architecture(stem: &str) -> (r: &str)
    ensures
        r@ == arch_of(stem@),
{
    match rfind_char(stem, '_') {
        Some(i) => {
            let n: usize = stem.unicode_len();
            proof {
                stem@.index_of_last_ensures('_');
            }
            stem.substring_char(i + 1, n)
        },
        None => stem,
    }
}

/// `package` without a trailing `-dbgsym`.
pub fn without_dbgsym(package: &str) -> (r: &str)
    ensures
        r@ == strip_dbgsym(package@),
{
    if ends_with(package, "-dbgsym") {
        let n: usize = package.unicode_len();
        let m: usize = "-dbgsym".unicode_len();
        package.substring_char(0, n - m)
    } else {
        package
    }
}

/// Reads a package file's name. A name without `_` is refused, and nothing
/// is derived from it.
pub fn parse(filename: &str) -> (r: Result<ParsedName, NameError>)
    ensures
        r is Ok <==> filename@.contains('_'),
        r is Ok ==> r->Ok_0.describes(filename@),
        r is Err ==> r->Err_0 == NameError::MalformedName,
{
    let package = match package_name(filename) {
        Ok(p) => p,
        Err(e) => {
            return Err(e);
        },
    };
    let stem = file_stem(filename);
    let source = is_source(filename);
    let display = without_dbgsym(package);
    let arch = if source {
        String::new()
    } else {
        String::from_str(architecture(stem))
    };
    Ok(
        ParsedName {
            filename: String::from_str(filename),
            package: String::from_str(package),
            display_package: String::from_str(display),
            stem: String::from_str(stem),
            is_source: source,
            arch,
        },
    )
}

} // verus!
