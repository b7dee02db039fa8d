//! File paths, as the standard library holds them.
//!
//! A path is carried through the editor untouched. What the editor shows of
//! one is read through the functions below, whose contracts are taken on
//! trust from the standard library's documentation.

use std::path::PathBuf;
use vstd::prelude::*;

verus! {

#[verifier::external_type_specification]
#[verifier::external_body]
pub struct ExPathBuf(PathBuf);

/// The path written out as text, where it is valid Unicode.
pub uninterp spec fn path_text(path: PathBuf) -> Option<Seq<char>>;

/// The extension of the path's file name, as a path of its own.
pub uninterp spec fn path_extension(path: PathBuf) -> Option<PathBuf>;

/// `PathBuf::clone`: the copy is the same path.
pub assume_specification[ <PathBuf as Clone>::clone ](path: &PathBuf) -> (copy: PathBuf)
    ensures
        copy == *path,
;

/// `Path::to_str`: the path as text, or nothing where the path is not valid
/// Unicode. The same path always reads the same.
#[verifier::external_body]
pub(crate) fn to_str(path: &PathBuf) -> (text: Option<&str>)
    ensures
        path_text(*path) == match text {
            Some(text) => Some(text@),
            None => None,
        },
{
    path.to_str()
}

/// `Path::extension`: the part of the file name behind its last dot, where
/// there is one. It is handed out as a path, which holds the same characters.
#[verifier::external_body]
pub(crate) fn extension(path: &PathBuf) -> (extension: Option<PathBuf>)
    ensures
        extension == path_extension(*path),
{
    path.extension().map(PathBuf::from)
}

/// `PathBuf::from` on a string slice: a path that reads back as that text.
#[verifier::external_body]
pub(crate) fn from_str(text: &str) -> (path: PathBuf)
    ensures
        path_text(path) == Some(text@),
{
    PathBuf::from(text)
}

} // verus!
