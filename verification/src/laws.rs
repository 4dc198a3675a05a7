//! What holds of every package file's name of the usual shapes.

use vstd::prelude::*;
use crate::name::{
    arch_of, display_package_of, is_source_name, package_of, stem_of, strip_dbgsym,
};
use crate::pool::{bucket_of, directory_of, joined, PoolDestination};
use crate::text::{lemma_first_occurrence, lemma_last_occurrence, lemma_no_occurrence};

verus! {

/// The name of a binary package: `<package>_<version>_<arch>.deb`.
pub open spec fn binary_name(package: Seq<char>, version: Seq<char>, arch: Seq<char>) -> Seq<
    char,
> {
    package + "_"@ + version + "_"@ + arch + ".deb"@
}

/// The name of a source artifact: `<package>_` and a tail such as
/// `<version>.dsc` or `<version>.orig.tar.xz`.
pub open spec fn source_name(package: Seq<char>, tail: Seq<char>) -> Seq<char> {
    package + "_"@ + tail
}

/// The fields that a binary package's name gives: the package is what
/// stands before the first `_`, the stem is the name without `.deb`, the
/// architecture is what stands between the last `_` and `.deb`, and the name
/// is not that of a source artifact.
pub proof fn lemma_binary_name_fields(package: Seq<char>, version: Seq<char>, arch: Seq<char>)
    requires
        !package.contains('_'),
        !arch.contains('_'),
        !arch.contains('.'),
    ensures
        binary_name(package, version, arch).contains('_'),
        package_of(binary_name(package, version, arch)) == package,
        stem_of(binary_name(package, version, arch)) == package + "_"@ + version + "_"@ + arch,
        arch_of(stem_of(binary_name(package, version, arch))) == arch,
        !is_source_name(binary_name(package, version, arch)),
        display_package_of(binary_name(package, version, arch)) == strip_dbgsym(package),
{
    reveal_strlit("_");
    reveal_strlit(".deb");
    reveal_strlit(".dsc");
    reveal_strlit(".tar.xz");
    let name = binary_name(package, version, arch);
    let stem = package + "_"@ + version + "_"@ + arch;
    let n = name.len() as int;
    let first = package.len() as int;
    let last = (package.len() + 1 + version.len()) as int;
    let dot = stem.len() as int;
    assert(name =~= stem + ".deb"@);
    assert(dot == last + 1 + arch.len());

    assert(name[first] == '_');
    assert forall|j: int| 0 <= j < first implies name[j] != '_' by {
        assert(name[j] == package[j]);
    }
    lemma_first_occurrence(name, '_', first);
    assert(name.contains('_'));
    assert(name.take(first) =~= package);

    assert(name[dot] == '.');
    assert forall|j: int| dot < j < n implies name[j] != '.' by {
        assert(name[j] == ".deb"@[j - dot]);
    }
    lemma_last_occurrence(name, '.', dot);
    assert(name.take(dot) =~= stem);

    assert(stem[last] == '_');
    assert forall|j: int| last < j < stem.len() implies stem[j] != '_' by {
        assert(stem[j] == arch[j - last - 1]);
    }
    lemma_last_occurrence(stem, '_', last);
    assert(stem.skip(last + 1) =~= arch);

    assert(name[n - 1] == 'b');
    if ".dsc"@.is_suffix_of(name) {
        assert(name.subrange(n - 4, n)[3] == 'c');
    }
    if ".tar.xz"@.is_suffix_of(name) {
        assert(name.subrange(n - 7, n)[6] == 'z');
    }
}

/// A binary package `<package>_<version>_<arch>.deb` goes to
/// `pool/{archive}/main/binary-<arch>/{bucket}/{package}`, where a package of
/// debug symbols, `<package>-dbgsym`, counts as `<package>`.
pub proof fn law_binary_directory(
    package: Seq<char>,
    version: Seq<char>,
    arch: Seq<char>,
    archive: Seq<char>,
)
    requires
        !package.contains('_'),
        !arch.contains('_'),
        !arch.contains('.'),
    ensures
        directory_of(binary_name(package, version, arch), archive) == "pool/"@ + archive
            + "/main/"@ + ("binary-"@ + arch) + "/"@ + bucket_of(strip_dbgsym(package)) + "/"@
            + strip_dbgsym(package),
{
    lemma_binary_name_fields(package, version, arch);
}

/// A binary package whose name does not end in `-dbgsym` is filed under its
/// own name, in the bucket of its first character.
pub proof fn law_plain_binary_directory(
    package: Seq<char>,
    version: Seq<char>,
    arch: Seq<char>,
    archive: Seq<char>,
)
    requires
        package.len() > 0,
        !package.contains('_'),
        !"-dbgsym"@.is_suffix_of(package),
        !arch.contains('_'),
        !arch.contains('.'),
    ensures
        directory_of(binary_name(package, version, arch), archive) == "pool/"@ + archive
            + "/main/"@ + ("binary-"@ + arch) + "/"@ + seq![package[0]] + "/"@ + package,
{
    law_binary_directory(package, version, arch, archive);
    assert(package.take(1) =~= seq![package[0]]);
}

/// A package of debug symbols, `<base>-dbgsym_<version>_<arch>.deb`, is filed
/// under `<base>`, and its file keeps the name it came with.
pub proof fn law_dbgsym_directory(
    base: Seq<char>,
    version: Seq<char>,
    arch: Seq<char>,
    archive: Seq<char>,
    place: PoolDestination,
)
    requires
        !base.contains('_'),
        !arch.contains('_'),
        !arch.contains('.'),
        place.is_place_of(binary_name(base + "-dbgsym"@, version, arch), archive),
    ensures
        place.directory@ == "pool/"@ + archive + "/main/"@ + ("binary-"@ + arch) + "/"@
            + bucket_of(base) + "/"@ + base,
        place.filename@ == base + "-dbgsym"@ + "_"@ + version + "_"@ + arch + ".deb"@,
        joined(place.directory@, place.filename@) == place.directory@ + "/"@ + binary_name(
            base + "-dbgsym"@,
            version,
            arch,
        ),
{
    reveal_strlit("-dbgsym");
    reveal_strlit("_");
    let package = base + "-dbgsym"@;
    assert forall|j: int| 0 <= j < package.len() implies package[j] != '_' by {
        if j < base.len() {
            assert(base.contains(package[j]));
        } else {
            assert(package[j] == "-dbgsym"@[j - base.len()]);
        }
    }
    lemma_no_occurrence(package, '_');
    assert("-dbgsym"@ =~= package.subrange(package.len() - 7, package.len() as int));
    assert(package.take(package.len() - 7) =~= base);
    law_binary_directory(package, version, arch, archive);
}

/// A source artifact, `<package>_` and a tail that ends in `.dsc` or
/// `.tar.xz`, goes to `pool/{archive}/main/source/{bucket}/{package}`, where
/// a package called `<package>-dbgsym` counts as `<package>`.
pub proof fn law_source_directory(package: Seq<char>, tail: Seq<char>, archive: Seq<char>)
    requires
        !package.contains('_'),
        ".dsc"@.is_suffix_of(tail) || ".tar.xz"@.is_suffix_of(tail),
    ensures
        source_name(package, tail).contains('_'),
        is_source_name(source_name(package, tail)),
        package_of(source_name(package, tail)) == package,
        directory_of(source_name(package, tail), archive) == "pool/"@ + archive + "/main/"@
            + "source"@ + "/"@ + bucket_of(strip_dbgsym(package)) + "/"@ + strip_dbgsym(package),
{
    reveal_strlit("_");
    let name = source_name(package, tail);
    let n = name.len() as int;
    let first = package.len() as int;
    assert(name[first] == '_');
    assert forall|j: int| 0 <= j < first implies name[j] != '_' by {
        assert(name[j] == package[j]);
    }
    lemma_first_occurrence(name, '_', first);
    assert(name.contains('_'));
    assert(name.take(first) =~= package);
    if ".dsc"@.is_suffix_of(tail) {
        let m = ".dsc"@.len() as int;
        assert(name.subrange(n - m, n) =~= tail.subrange(tail.len() - m, tail.len() as int));
    } else {
        let m = ".tar.xz"@.len() as int;
        assert(name.subrange(n - m, n) =~= tail.subrange(tail.len() - m, tail.len() as int));
    }
}

/// `<package>_<version>.dsc`, where the package's name does not end in
/// `-dbgsym`, goes to `pool/{archive}/main/source/{bucket}/{package}`.
pub proof fn law_dsc_directory(package: Seq<char>, version: Seq<char>, archive: Seq<char>)
    requires
        !package.contains('_'),
        !"-dbgsym"@.is_suffix_of(package),
    ensures
        directory_of(package + "_"@ + version + ".dsc"@, archive) == "pool/"@ + archive
            + "/main/"@ + "source"@ + "/"@ + bucket_of(package) + "/"@ + package,
{
    reveal_strlit(".dsc");
    let tail = version + ".dsc"@;
    assert(".dsc"@ =~= tail.subrange(tail.len() - 4, tail.len() as int));
    assert(package + "_"@ + version + ".dsc"@ =~= source_name(package, tail));
    law_source_directory(package, tail, archive);
}

/// `<package>_<version>.orig.tar.xz`, where the package's name does not end
/// in `-dbgsym`, goes to `pool/{archive}/main/source/{bucket}/{package}`.
pub proof fn law_orig_tarball_directory(
    package: Seq<char>,
    version: Seq<char>,
    archive: Seq<char>,
)
    requires
        !package.contains('_'),
        !"-dbgsym"@.is_suffix_of(package),
    ensures
        directory_of(package + "_"@ + version + ".orig.tar.xz"@, archive) == "pool/"@ + archive
            + "/main/"@ + "source"@ + "/"@ + bucket_of(package) + "/"@ + package,
{
    reveal_strlit(".tar.xz");
    reveal_strlit(".orig.tar.xz");
    let tail = version + ".orig.tar.xz"@;
    assert(".tar.xz"@ =~= tail.subrange(tail.len() - 7, tail.len() as int));
    assert(package + "_"@ + version + ".orig.tar.xz"@ =~= source_name(package, tail));
    law_source_directory(package, tail, archive);
}

} // verus!
