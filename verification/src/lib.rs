//! Placement of Debian package artifacts in an APT pool tree.
//!
//! The crate derives, from a package file's name alone, where the file belongs
//! inside `pool/{archive}/main/...`, finds `.deb` files by package name, lays
//! out the command lines of the tools that unpack and mirror archives, and
//! renders MD5 digests. It never touches the filesystem: callers perform the
//! actions that the functions here decide.

pub mod text;
pub mod name;
pub mod pool;
pub mod laws;
pub mod locate;
pub mod tools;
pub mod digest;
