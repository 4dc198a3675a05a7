//! Where a package file belongs in the pool:
//! `pool/{archive}/main/{source|binary-<arch>}/{bucket}/{package}/{filename}`.

use vstd::prelude::*;
use crate::name::{
    arch_of, display_package_of, is_source_name, parse, stem_of, NameError, ParsedName,
};

verus! {

/// The bucket of a package: its first character, or nothing for an empty name.
pub open spec fn bucket_of(package: Seq<char>) -> Seq<char> {
    if package.len() == 0 {
        Seq::empty()
    } else {
        package.take(1)
    }
}

/// The branch below `main`: `source`, or `binary-` and the architecture.
pub open spec fn branch_of(is_source: bool, arch: Seq<char>) -> Seq<char> {
    if is_source {
        "source"@
    } else {
        "binary-"@ + arch
    }
}

/// The pool directory of a package of the given kind.
pub open spec fn pool_directory(
    archive: Seq<char>,
    is_source: bool,
    arch: Seq<char>,
    package: Seq<char>,
) -> Seq<char> {
    "pool/"@ + archive + "/main/"@ + branch_of(is_source, arch) + "/"@ + bucket_of(package) + "/"@
        + package
}

/// The pool directory of the file called `name`.
pub open spec fn directory_of(name: Seq<char>, archive: Seq<char>) -> Seq<char> {
    pool_directory(
        archive,
        is_source_name(name),
        arch_of(stem_of(name)),
        display_package_of(name),
    )
}

/// `directory` and `leaf` joined by a `/`.
pub open spec fn joined(directory: Seq<char>, leaf: Seq<char>) -> Seq<char> {
    directory + "/"@ + leaf
}

/// A directory of the pool and the name of the file that goes there.
pub struct PoolDestination {
    /// The directory, relative to the root that holds `pool`.
    pub directory: String,
    /// The file's name, which is the name it came with.
    pub filename: String,
}

impl PoolDestination {
    /// Whether this is the place of the file called `name` in `archive`.
    pub open spec fn is_place_of(&self, name: Seq<char>, archive: Seq<char>) -> bool {
        &&& self.directory@ == directory_of(name, archive)
        &&& self.filename@ == name
    }

    /// The path of the file: the directory, a `/` and the file's name.
    pub fn file_path(&self) -> (r: String)
        ensures
            r@ == joined(self.directory@, self.filename@),
    {
        let mut path = self.directory.clone();
        path.append("/");
        path.append(self.filename.as_str());
        path
    }

    /// The same destination below `root`.
    pub fn under_root(self, root: &str) -> (r: PoolDestination)
        ensures
            r.directory@ == joined(root@, self.directory@),
            r.filename@ == self.filename@,
    {
        let mut directory = String::from_str(root);
        directory.append("/");
        directory.append(self.directory.as_str());
        PoolDestination { directory, filename: self.filename }
    }
}

/// The first character of `package` as text, empty where `package` is.
pub fn bucket(package: &str) -> (r: &str)
    ensures
        r@ == bucket_of(package@),
{
    if package.unicode_len() == 0 {
        assert(package@ =~= Seq::<char>::empty());
        package
    } else {
        package.substring_char(0, 1)
    }
}

/// The destination of a parsed name in `archive`. Nothing is created: the
/// caller makes the directory.
pub fn resolve(parsed: &ParsedName, archive: &str) -> (r: PoolDestination)
    ensures
        r.directory@ == pool_directory(
            archive@,
            parsed.is_source,
            parsed.arch@,
            parsed.display_package@,
        ),
        r.filename@ == parsed.filename@,
        forall|name: Seq<char>| parsed.describes(name) ==> r.is_place_of(name, archive@),
{
    let mut directory = String::from_str("pool/");
    directory.append(archive);
    directory.append("/main/");
    if parsed.is_source {
        directory.append("source");
    } else {
        directory.append("binary-");
        directory.append(parsed.arch.as_str());
    }
    directory.append("/");
    directory.append(bucket(parsed.display_package.as_str()));
    directory.append("/");
    directory.append(parsed.display_package.as_str());
    assert(directory@ =~= pool_directory(
        archive@,
        parsed.is_source,
        parsed.arch@,
        parsed.display_package@,
    ));
    PoolDestination { directory, filename: parsed.filename.clone() }
}

/// What to do with one entry of the directory that is being placed.
///
/// A directory is passed over, and so is an entry whose name is no valid
/// text (`filename` is `None`). Any other entry is a file to place: its
/// destination is returned, for the caller to create the directory and to
/// move or copy the file there. A file's name without `_` is an error, which
/// ends the whole placement.
pub fn plan_entry(is_dir: bool, filename: Option<&str>, archive: &str) -> (r: Result<
    Option<PoolDestination>,
    NameError,
>)
    ensures
        r is Err <==> !is_dir && filename is Some && !filename->Some_0@.contains('_'),
        r is Err ==> r->Err_0 == NameError::MalformedName,
        r is Ok ==> (r->Ok_0 is None <==> is_dir || filename is None),
        r is Ok && r->Ok_0 is Some ==> r->Ok_0->Some_0.is_place_of(filename->Some_0@, archive@),
{
    if is_dir {
        return Ok(None);
    }
    match filename {
        None => Ok(None),
        Some(name) => match parse(name) {
            Ok(parsed) => Ok(Some(resolve(&parsed, archive))),
            Err(e) => Err(e),
        },
    }
}

} // verus!
