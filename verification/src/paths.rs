//! The fixed list of absolute directory prefixes under which catalog image
//! paths live, and the stripping of those prefixes.

use vstd::prelude::*;

use crate::text::has_prefix;
use crate::text::str_strip_prefix;

verus! {

/// The catalog-relative remainder of a path that starts with one of the
/// known absolute prefixes, tried in their fixed order; `None` when no
/// prefix matches.
pub open spec fn relative_to_known_prefix(path: Seq<char>) -> Option<Seq<char>> {
    if has_prefix(path, "/d/home/sabine/Films/"@) {
        Some(path.skip("/d/home/sabine/Films/"@.len() as int))
    } else if has_prefix(path, "/home/sabine/Films/"@) {
        Some(path.skip("/home/sabine/Films/"@.len() as int))
    } else if has_prefix(path, "/mnt/big/video/Films/"@) {
        Some(path.skip("/mnt/big/video/Films/"@.len() as int))
    } else if has_prefix(path, "/d/more/src/perso/Films/"@) {
        Some(path.skip("/d/more/src/perso/Films/"@.len() as int))
    } else {
        None
    }
}

/// Strips the first matching known prefix off `path`; fails when no known
/// prefix matches.
pub fn relative_path<'a>(path: &'a str) -> (r: Option<&'a str>)
    ensures
        match r {
            Some(rest) => relative_to_known_prefix(path@) == Some(rest@),
            None => relative_to_known_prefix(path@) is None,
        },
{
    if let Some(rest) = str_strip_prefix(path, "/d/home/sabine/Films/") {
        return Some(rest);
    }
    if let Some(rest) = str_strip_prefix(path, "/home/sabine/Films/") {
        return Some(rest);
    }
    if let Some(rest) = str_strip_prefix(path, "/mnt/big/video/Films/") {
        return Some(rest);
    }
    if let Some(rest) = str_strip_prefix(path, "/d/more/src/perso/Films/") {
        return Some(rest);
    }
    None
}

} // verus!
