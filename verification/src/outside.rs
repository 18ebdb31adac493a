//! Calls into std for which vstd gives no specification.

use vstd::prelude::*;

use crate::converter::opt_view;
use crate::text::{rspan, CharClass};

verus! {

/// Collects characters into a `String` (`String: FromIterator<char>`): the
/// string holds exactly those characters, in order.
#[verifier::external_body]
pub(crate) fn string_from_chars(cs: &[char]) -> (r: String)
    ensures
        r@ == cs@,
{
    cs.iter().collect()
}

/// What `str::to_uppercase` returns for a string: the Unicode upper-case
/// mapping of each character, one character possibly becoming several.
pub uninterp spec fn str_to_uppercase(s: Seq<char>) -> Seq<char>;

/// `str::to_uppercase` on the characters of `cs`. Its result is named
/// `str_to_uppercase`; the Unicode case tables behind it are not stated.
#[verifier::external_body]
pub(crate) fn to_uppercase(cs: &[char]) -> (r: Vec<char>)
    ensures
        r@ == str_to_uppercase(cs@),
{
    let s: String = cs.iter().collect();
    s.to_uppercase().chars().collect()
}

/// The last normal component of a path whose only separator is `/`, as
/// `Path::file_name` documents it: the path is split at `/`, empty pieces
/// and `.` pieces are dropped (a leading `.` stands for the current
/// directory, which is no normal component), and there is none where no
/// piece is left or the last one is `..`.
pub open spec fn slash_file_name(path: Seq<char>) -> Option<Seq<char>>
    decreases path.len(),
{
    if path.len() == 0 {
        None
    } else {
        let k = rspan(path, CharClass::Not('/'));
        let piece = path.skip(path.len() - k);
        let before = path.len() - k - 1;
        if piece.len() == 0 || piece == seq!['.'] {
            if before < 0 {
                None
            } else {
                slash_file_name(path.take(before))
            }
        } else if piece == seq!['.', '.'] {
            None
        } else {
            Some(piece)
        }
    }
}

/// The path neither holds `\` or `:` nor begins with two `/`: then no
/// platform sees a prefix in it, and every platform separates its
/// components only at `/`.
pub open spec fn plain_slash_path(path: Seq<char>) -> bool {
    &&& !path.contains('\\')
    &&& !path.contains(':')
    &&& !(path.len() >= 2 && path[0] == '/' && path[1] == '/')
}

/// `Path::file_name` on a path given as text. For a `plain_slash_path` the
/// result is `slash_file_name` of the path. Otherwise the platform decides
/// how the path splits and which prefix it has (on some platforms a `\\?\`
/// prefix makes `/` an ordinary character, and `//server/share` a prefix),
/// and the contract only states that a returned name is a non-empty piece
/// of the path.
#[verifier::external_body]
pub(crate) fn path_file_name(path: &[char]) -> (r: Option<Vec<char>>)
    ensures
        r matches Some(n) ==> 0 < n@.len() <= path@.len() && exists|i: int|
            0 <= i && i + n@.len() <= path@.len() && #[trigger] path@.subrange(i, i + n@.len())
                == n@,
        plain_slash_path(path@) ==> opt_view(r) == slash_file_name(path@),
{
    let p: String = path.iter().collect();
    match std::path::Path::new(&p).file_name() {
        Some(n) => Some(n.to_string_lossy().chars().collect()),
        None => None,
    }
}

} // verus!
