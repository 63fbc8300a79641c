//! Decision rules for the directory walk: which directories to descend
//! into and which files to keep as candidates.
//!
//! The walk itself touches the filesystem and lives outside the library;
//! it feeds directory and file names to these predicates.

use vstd::prelude::*;

use crate::text::contains_seq;
use crate::text::contains_substr;
use crate::text::extension_spec;
use crate::text::lower_seq;
use crate::text::starts_with_dot;
use crate::text::starts_with_dot_spec;
use crate::text::str_eq;
use crate::text::after_last;
use crate::text::ascii_lower;
use crate::text::base_name_of;
use crate::text::extension_of;

verus! {

/// Some excluded substring occurs in the name.
pub open spec fn excluded_by_spec(name: Seq<char>, excluded: Seq<String>) -> bool {
    exists|i: int| 0 <= i < excluded.len() && contains_seq(name, (#[trigger] excluded[i])@)
}

/// Decides whether a name passes the exclusion filter: true when no
/// excluded substring occurs in it.
pub fn filter_string(string: &str, excluded_paths: &Vec<String>) -> (r: bool)
    ensures
        r == !excluded_by_spec(string@, excluded_paths@),
{
    let n = excluded_paths.len();
    let mut i: usize = 0;
    while i < n
        invariant
            n == excluded_paths@.len(),
            i <= n,
            forall|j: int| 0 <= j < i ==> !contains_seq(string@, (#[trigger] excluded_paths@[j])@),
        decreases n - i,
    {
        if contains_substr(string, excluded_paths[i].as_str()) {
            return false;
        }
        i += 1;
    }
    true
}

/// The walk descends into a directory iff the name passes the (possibly
/// inverted) exclusion filter — consulted meaningfully only at the top
/// level — and the name is not dot-prefixed, which excludes it at any
/// depth and in either filter mode.
pub open spec fn descend_spec(
    name: Seq<char>,
    excluded: Seq<String>,
    flip_exclusion: bool,
    depth: u64,
) -> bool {
    let keep = if flip_exclusion {
        excluded_by_spec(name, excluded)
    } else {
        !excluded_by_spec(name, excluded)
    };
    (depth != 0 || keep) && !starts_with_dot_spec(name)
}

/// Decides whether the walk descends into a directory of this name at this
/// depth.
pub fn should_descend(
    dir_name: &str,
    excluded_paths: &Vec<String>,
    flip_exclusion: bool,
    depth: u64,
) -> (r: bool)
    ensures
        r == descend_spec(dir_name@, excluded_paths@, flip_exclusion, depth),
{
    let mut filter_res = filter_string(dir_name, excluded_paths);
    if flip_exclusion {
        filter_res = !filter_res;
    }
    (depth != 0 || filter_res) && !starts_with_dot(dir_name)
}

/// The extension is one of the image extensions.
pub open spec fn image_extension(e: Seq<char>) -> bool {
    e == "heic"@ || e == "jpg"@ || e == "jpeg"@
}

/// The extension is one of the video extensions.
pub open spec fn video_extension(e: Seq<char>) -> bool {
    e == "mov"@ || e == "mp4"@ || e == "avi"@
}

/// The extension of a file name, or empty when it has none.
pub open spec fn extension_or_empty(name: Seq<char>) -> Seq<char> {
    match extension_spec(name) {
        Some(e) => e,
        None => seq![],
    }
}

/// A file is kept as a candidate iff its name is not dot-prefixed and its
/// extension, compared case-insensitively, is an image extension or — when
/// videos are included — a video extension.
pub open spec fn file_allowed_spec(name: Seq<char>, include_videos: bool) -> bool {
    let e = lower_seq(extension_or_empty(name));
    &&& !starts_with_dot_spec(name)
    &&& (image_extension(e) || (include_videos && video_extension(e)))
}

/// Decides whether a file of this name is kept as a candidate.
pub fn is_file_allowed(file_name: &str, include_videos: bool) -> (r: bool)
    ensures
        r == file_allowed_spec(file_name@, include_videos),
{
    if starts_with_dot(file_name) {
        return false;
    }
    let ext = match extension_of(file_name) {
        Some(e) => e,
        None => String::new(),
    };
    let low = ascii_lower(ext.as_str());
    proof {
        assert(lower_seq(Seq::<char>::empty()) =~= Seq::<char>::empty());
    }
    if str_eq(low.as_str(), "heic") || str_eq(low.as_str(), "jpg") || str_eq(low.as_str(), "jpeg") {
        return true;
    }
    include_videos && (str_eq(low.as_str(), "mov") || str_eq(low.as_str(), "mp4") || str_eq(
        low.as_str(),
        "avi",
    ))
}

/// A path denotes a video iff the extension of its final component,
/// compared case-insensitively, is a video extension.
pub open spec fn is_video_spec(path: Seq<char>) -> bool {
    video_extension(lower_seq(extension_or_empty(after_last(path, '/'))))
}

/// Decides whether a path denotes a video file.
pub fn is_video(path: &str) -> (r: bool)
    ensures
        r == is_video_spec(path@),
{
    let name = base_name_of(path);
    let ext = match extension_of(name.as_str()) {
        Some(e) => e,
        None => String::new(),
    };
    let low = ascii_lower(ext.as_str());
    proof {
        assert(lower_seq(Seq::<char>::empty()) =~= Seq::<char>::empty());
    }
    str_eq(low.as_str(), "mov") || str_eq(low.as_str(), "mp4") || str_eq(low.as_str(), "avi")
}

} // verus!
