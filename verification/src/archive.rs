//! Which entries of an archive are unpacked, and as what.

use vstd::prelude::*;
use vstd::string::*;
use crate::text::{has_prefix, has_suffix, str_ends_with, str_starts_with};

verus! {

/// The names of one entry of an archive.
#[derive(Clone, Debug, PartialEq, Eq)]
pub struct ArchiveEntry {
    /// The relative path under which the entry is written.
    pub path: String,
    /// The name of the entry as the archive stores it.
    pub raw_name: String,
}

/// What is done with one entry of an archive.
#[derive(Clone, Copy, Debug, PartialEq, Eq, Structural)]
pub enum UnpackStep {
    /// The entry lies outside the part that is wanted.
    Skip,
    /// The entry is a directory: create it, with the directories above it.
    CreateDir,
    /// The entry is a file: create the directories above it and write it,
    /// over what is there.
    WriteFile,
}

/// The path lies below the directory `dir`, with either separator.
pub open spec fn under_dir(path: Seq<char>, dir: Seq<char>) -> bool {
    has_prefix(path, dir + "/"@) || has_prefix(path, dir + "\\"@)
}

/// What is done with an entry: nothing where a directory is required and
/// the entry is not below it; else a name that ends in a slash stands for a
/// directory and any other for a file.
pub open spec fn step_of(path: Seq<char>, raw_name: Seq<char>, required_dir: Option<Seq<char>>) -> UnpackStep {
    if required_dir is Some && !under_dir(path, required_dir->0) {
        UnpackStep::Skip
    } else if has_suffix(raw_name, "/"@) {
        UnpackStep::CreateDir
    } else {
        UnpackStep::WriteFile
    }
}

/// Whether a path lies below a directory.
pub fn is_under_dir(path: &str, dir: &str) -> (r: bool)
    ensures
        r == under_dir(path@, dir@),
{
    let mut forward = String::from_str(dir);
    forward.append("/");
    let mut backward = String::from_str(dir);
    backward.append("\\");
    str_starts_with(path, forward.as_str()) || str_starts_with(path, backward.as_str())
}

/// Decides what is done with one entry of an archive.
pub fn unpack_step(entry: &ArchiveEntry, required_dir: &Option<String>) -> (r: UnpackStep)
    ensures
        r == step_of(
            entry.path@,
            entry.raw_name@,
            match *required_dir {
                Some(d) => Some(d@),
                None => None,
            },
        ),
{
    let wanted: bool = match required_dir {
        Some(d) => is_under_dir(entry.path.as_str(), d.as_str()),
        None => true,
    };
    if !wanted {
        UnpackStep::Skip
    } else if str_ends_with(entry.raw_name.as_str(), "/") {
        UnpackStep::CreateDir
    } else {
        UnpackStep::WriteFile
    }
}

} // verus!
