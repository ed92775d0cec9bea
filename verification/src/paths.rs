//! A character-sequence model of file paths: the file name after the
//! last separator, the split of that name into stem and extension, and
//! the case-insensitive audio-extension classifier.

use vstd::prelude::*;

use crate::text::eq_lowered;
use crate::text::ends_with_spec;
use crate::text::find_last;
use crate::text::last_pos;
use crate::text::lemma_last_pos;
use crate::text::lower_chars;

verus! {

/// The path's final component: everything after the last `/`, or the
/// whole path when it has no separator.
pub open spec fn file_name_of(p: Seq<char>) -> Seq<char> {
    match last_pos(p, '/') {
        Some(i) => p.subrange(i + 1, p.len() as int),
        None => p,
    }
}

/// Index of the dot that separates stem and extension in a file name:
/// the last dot, except that a dot opening the name marks no extension.
pub open spec fn ext_dot(name: Seq<char>) -> Option<int> {
    match last_pos(name, '.') {
        Some(i) => if i > 0 {
            Some(i)
        } else {
            None
        },
        None => None,
    }
}

/// The file name without its extension (and without the dot).
pub open spec fn stem_of_name(name: Seq<char>) -> Seq<char> {
    match ext_dot(name) {
        Some(i) => name.subrange(0, i),
        None => name,
    }
}

/// The extension of a file name, without the dot.
pub open spec fn extension_of_name(name: Seq<char>) -> Option<Seq<char>> {
    match ext_dot(name) {
        Some(i) => Some(name.subrange(i + 1, name.len() as int)),
        None => None,
    }
}

/// Stem of a path's file name.
pub open spec fn stem_of(p: Seq<char>) -> Seq<char> {
    stem_of_name(file_name_of(p))
}

/// Extension of a path's file name.
pub open spec fn extension_of(p: Seq<char>) -> Option<Seq<char>> {
    extension_of_name(file_name_of(p))
}

/// The fixed allow-list of audio extensions, matched case-insensitively.
pub open spec fn is_audio_ext(e: Seq<char>) -> bool {
    ||| lower_chars(e) == "mp3"@
    ||| lower_chars(e) == "wav"@
    ||| lower_chars(e) == "flac"@
    ||| lower_chars(e) == "ogg"@
    ||| lower_chars(e) == "m4a"@
    ||| lower_chars(e) == "aac"@
}

/// A path is a candidate audio input when its extension, lowercased,
/// stands in the allow-list; a path without an extension is not.
pub open spec fn is_audio_path(p: Seq<char>) -> bool {
    match extension_of(p) {
        Some(e) => is_audio_ext(e),
        None => false,
    }
}

/// The file name of `path`: everything after the last `/`.
pub fn file_name<'a>(path: &'a str) -> (r: &'a str)
    ensures
        r@ == file_name_of(path@),
{
    proof {
        lemma_last_pos(path@, '/');
    }
    let n = path.unicode_len();
    match find_last(path, '/') {
        Some(i) => path.substring_char(i + 1, n),
        None => path,
    }
}

/// The stem of `path`: its file name without the extension.
pub fn file_stem<'a>(path: &'a str) -> (r: &'a str)
    ensures
        r@ == stem_of(path@),
{
    let name = file_name(path);
    proof {
        lemma_last_pos(name@, '.');
    }
    match find_last(name, '.') {
        Some(i) => if i > 0 {
            name.substring_char(0, i)
        } else {
            name
        },
        None => name,
    }
}

/// Decides whether `path` names a candidate audio input: its extension,
/// lowercased, must stand in the fixed allow-list.
pub fn is_audio_file(path: &str) -> (r: bool)
    ensures
        r == is_audio_path(path@),
{
    let name = file_name(path);
    proof {
        lemma_last_pos(name@, '.');
    }
    let n = name.unicode_len();
    match find_last(name, '.') {
        Some(i) => {
            if i == 0 {
                return false;
            }
            let ext = name.substring_char(i + 1, n);
            eq_lowered(ext, "mp3") || eq_lowered(ext, "wav") || eq_lowered(ext, "flac")
                || eq_lowered(ext, "ogg") || eq_lowered(ext, "m4a") || eq_lowered(ext, "aac")
        },
        None => false,
    }
}

} // verus!
