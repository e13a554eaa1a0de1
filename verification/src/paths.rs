//! Path arithmetic on text paths.
//!
//! Paths are held as UTF-8 strings. What the standard library computes on
//! them is taken from it: each function here hands one question to
//! `std::path::Path` and names the answer.

use vstd::prelude::*;
use vstd::string::StrSliceExecFns;
use vstd::utf8::encode_utf8;

verus! {

/// `path` without the leading components `prefix`, where `prefix` is a prefix
/// of `path` component by component.
pub uninterp spec fn stripped_path(path: Seq<char>, prefix: Seq<char>) -> Option<Seq<char>>;

/// The final component of `path`, where it has one.
pub uninterp spec fn file_name_of(path: Seq<char>) -> Option<Seq<char>>;

/// `path` without its final component, where it has one.
pub uninterp spec fn parent_of(path: Seq<char>) -> Option<Seq<char>>;

/// Calls `Path::strip_prefix`: the remainder of `path` behind `prefix`, or
/// `None` where `prefix` is not a prefix of `path`. The remainder of a text
/// path is text again.
#[verifier::external_body]
pub(crate) fn strip_prefix(path: &str, prefix: &str) -> (rest: Option<String>)
    ensures
        rest matches Some(text) ==> stripped_path(path@, prefix@) == Some(text@),
        rest is None ==> stripped_path(path@, prefix@) is None,
{
    let rest = std::path::Path::new(path).strip_prefix(prefix).ok();
    rest.and_then(|p| p.to_str()).map(|s| s.to_owned())
}

/// Calls `Path::file_name`: the final component of `path`, or `None` where
/// the path ends in `..` or has no component.
#[verifier::external_body]
pub(crate) fn file_name(path: &str) -> (name: Option<String>)
    ensures
        name matches Some(text) ==> file_name_of(path@) == Some(text@),
        name is None ==> file_name_of(path@) is None,
{
    let name = std::path::Path::new(path).file_name();
    name.and_then(|n| n.to_str()).map(|s| s.to_owned())
}

/// Calls `Path::parent`: `path` without its final component, or `None`
/// where the path is a root or empty.
#[verifier::external_body]
pub(crate) fn parent(path: &str) -> (dir: Option<String>)
    ensures
        dir matches Some(text) ==> parent_of(path@) == Some(text@),
        dir is None ==> parent_of(path@) is None,
{
    let dir = std::path::Path::new(path).parent();
    dir.and_then(|p| p.to_str()).map(|s| s.to_owned())
}

/// The bytes of `text`, which is its UTF-8 encoding.
pub fn bytes_of(text: &str) -> (bytes: Vec<u8>)
    ensures
        bytes@ == encode_utf8(text@),
{
    text.as_bytes_vec()
}

/// A copy of `bytes`.
pub fn copy_bytes(bytes: &Vec<u8>) -> (copy: Vec<u8>)
    ensures
        copy@ == bytes@,
{
    let copy = bytes.clone();
    assert(copy@ =~= bytes@);
    copy
}

} // verus!
