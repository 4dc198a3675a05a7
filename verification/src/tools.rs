//! The outside tools that unpack and mirror archives: which one to run, with
//! which arguments, and what to do to the directories before it runs. The
//! caller runs the plan; exit status 0 is success, any other is a failure.

use vstd::prelude::*;
use crate::text::ends_with;

verus! {

/// The kinds of archive that can be unpacked.
#[derive(Clone, Copy, Debug, PartialEq, Eq, Structural)]
pub enum ArchiveKind {
    /// A `.zip`, unpacked by `unzip`.
    Zip,
    /// A `.tar.gz` or `.tar.xz`, unpacked by `tar`.
    Tar,
}

/// A program and its arguments.
pub struct ToolCommand {
    pub program: String,
    pub args: Vec<String>,
}

/// A tool that ended with another exit status than 0.
pub struct ToolFailure {
    /// The program that failed.
    pub tool: String,
}

/// What to do, in this order: remove a directory tree, create a directory
/// with its ancestors, run a command.
pub struct ToolPlan {
    /// The tree to remove first, if any.
    pub remove: Option<String>,
    /// The directory to create next, if any.
    pub create: Option<String>,
    /// The command to run last.
    pub command: ToolCommand,
}

/// The characters of an optional text.
pub open spec fn text_of(text: Option<String>) -> Option<Seq<char>> {
    match text {
        Some(t) => Some(t@),
        None => None,
    }
}

impl ToolCommand {
    /// The command line: the program, then each argument.
    pub open spec fn line(&self) -> Seq<Seq<char>> {
        seq![self.program@] + self.args@.map_values(|s: String| s@)
    }

    /// What the tool's exit means: success, or a failure that names the
    /// tool and says nothing more.
    pub fn outcome(&self, success: bool) -> (r: Result<(), ToolFailure>)
        ensures
            r is Ok <==> success,
            r is Err ==> r->Err_0.tool@ == self.program@,
    {
        if success {
            Ok(())
        } else {
            Err(ToolFailure { tool: self.program.clone() })
        }
    }
}

impl ToolFailure {
    /// The failure in words: the tool's name and `command failed`.
    pub fn message(&self) -> (r: String)
        ensures
            r@ == self.tool@ + " command failed"@,
    {
        let mut text = self.tool.clone();
        text.append(" command failed");
        text
    }
}

/// The kind of archive that a file's name announces, if any.
pub open spec fn archive_kind_of(filename: Seq<char>) -> Option<ArchiveKind> {
    if ".zip"@.is_suffix_of(filename) {
        Some(ArchiveKind::Zip)
    } else if ".tar.gz"@.is_suffix_of(filename) || ".tar.xz"@.is_suffix_of(filename) {
        Some(ArchiveKind::Tar)
    } else {
        None
    }
}

/// `unzip <archive> -d <dst>`
pub open spec fn unzip_line(archive: Seq<char>, dst: Seq<char>) -> Seq<Seq<char>> {
    seq!["unzip"@, archive, "-d"@, dst]
}

/// `tar -xvf <archive> -C <dst> --strip-components 1`
pub open spec fn untar_line(archive: Seq<char>, dst: Seq<char>) -> Seq<Seq<char>> {
    seq!["tar"@, "-xvf"@, archive, "-C"@, dst, "--strip-components"@, "1"@]
}

/// `rsync -avz <src> <dst>`
pub open spec fn rsync_line(src: Seq<char>, dst: Seq<char>) -> Seq<Seq<char>> {
    seq!["rsync"@, "-avz"@, src, dst]
}

impl ToolPlan {
    /// Whether the plan replaces `dst` and then runs `line`: the tree at
    /// `dst` is removed where it exists, `dst` is created anew, and the
    /// command unpacks into it.
    pub open spec fn replaces(&self, dst: Seq<char>, dst_exists: bool, line: Seq<Seq<char>>) -> bool {
        &&& text_of(self.remove) == if dst_exists {
            Some(dst)
        } else {
            None
        }
        &&& text_of(self.create) == Some(dst)
        &&& self.command.line() == line
    }
}

/// The kind of archive that `filename` announces: `.zip`, or `.tar.gz` and
/// `.tar.xz`; none for any other name.
pub fn archive_kind(filename: &str) -> (r: Option<ArchiveKind>)
    ensures
        r == archive_kind_of(filename@),
{
    if ends_with(filename, ".zip") {
        Some(ArchiveKind::Zip)
    } else if ends_with(filename, ".tar.gz") || ends_with(filename, ".tar.xz") {
        Some(ArchiveKind::Tar)
    } else {
        None
    }
}

/// The plan that unpacks the zip archive at `path` into `dst`, which is
/// emptied first.
pub fn unzip(path: &str, dst: &str, dst_exists: bool) -> (r: ToolPlan)
    ensures
        r.replaces(dst@, dst_exists, unzip_line(path@, dst@)),
{
    let mut args: Vec<String> = Vec::new();
    args.push(String::from_str(path));
    args.push(String::from_str("-d"));
    args.push(String::from_str(dst));
    let command = ToolCommand { program: String::from_str("unzip"), args };
    assert(command.line() =~= unzip_line(path@, dst@));
    ToolPlan {
        remove: if dst_exists {
            Some(String::from_str(dst))
        } else {
            None
        },
        create: Some(String::from_str(dst)),
        command,
    }
}

/// The plan that unpacks the tar archive at `path` into `dst`, which is
/// emptied first. The first component of every path in the archive is
/// dropped.
pub fn untar(path: &str, dst: &str, dst_exists: bool) -> (r: ToolPlan)
    ensures
        r.replaces(dst@, dst_exists, untar_line(path@, dst@)),
{
    let mut args: Vec<String> = Vec::new();
    args.push(String::from_str("-xvf"));
    args.push(String::from_str(path));
    args.push(String::from_str("-C"));
    args.push(String::from_str(dst));
    args.push(String::from_str("--strip-components"));
    args.push(String::from_str("1"));
    let command = ToolCommand { program: String::from_str("tar"), args };
    assert(command.line() =~= untar_line(path@, dst@));
    ToolPlan {
        remove: if dst_exists {
            Some(String::from_str(dst))
        } else {
            None
        },
        create: Some(String::from_str(dst)),
        command,
    }
}

/// The plan that unpacks the archive at `src`, whose file name is
/// `filename`, into `dst`: that of `unzip` for a zip archive, that of `untar`
/// for a tar archive. The name must announce one of the two.
pub fn extract(filename: &str, src: &str, dst: &str, dst_exists: bool) -> (r: ToolPlan)
    requires
        archive_kind_of(filename@) is Some,
    ensures
        r.replaces(
            dst@,
            dst_exists,
            match archive_kind_of(filename@) {
                Some(ArchiveKind::Zip) => unzip_line(src@, dst@),
                _ => untar_line(src@, dst@),
            },
        ),
{
    match archive_kind(filename) {
        Some(ArchiveKind::Zip) => unzip(src, dst, dst_exists),
        _ => untar(src, dst, dst_exists),
    }
}

/// The plan that mirrors `src` to `dst`: `src` is created first where it is
/// not yet a directory, nothing is removed, and `dst` is left to the tool.
pub fn rsync(src: &str, dst: &str, src_is_dir: bool) -> (r: ToolPlan)
    ensures
        r.remove is None,
        text_of(r.create) == if src_is_dir {
            None
        } else {
            Some(src@)
        },
        r.command.line() == rsync_line(src@, dst@),
{
    let mut args: Vec<String> = Vec::new();
    args.push(String::from_str("-avz"));
    args.push(String::from_str(src));
    args.push(String::from_str(dst));
    let command = ToolCommand { program: String::from_str("rsync"), args };
    assert(command.line() =~= rsync_line(src@, dst@));
    ToolPlan {
        remove: None,
        create: if src_is_dir {
            None
        } else {
            Some(String::from_str(src))
        },
        command,
    }
}

} // verus!
