//! Construction of metadata records from plainly extracted values.
//!
//! The values themselves (file sizes, tag texts, container fields) arrive
//! from the filesystem and the media parsers; everything here is the logic
//! that decides which records those values form, which extractor a file
//! needs, and how an MP4 creation time becomes a normalized date text.

use vstd::prelude::*;

use crate::model::{FileMetadata, ImageMetadata, MetaError, Rational, TimeSpan, VideoMetadata};
use crate::text::after_last;
use crate::text::ascii_lower;
use crate::text::base_name_of;
use crate::text::extension_of;
use crate::text::extension_spec;
use crate::text::lower_seq;
use crate::text::str_eq;
use crate::timefmt::utc_text_of;
use crate::timefmt::utc_timestamp_text;

verus! {

/// MP4 containers count creation time in seconds since 1904-01-01; Unix
/// time starts 1970-01-01, this many seconds later.
pub const MP4_TO_UNIX_OFFSET: u64 = 2_082_844_800;

/// A stored MP4 creation time moved to the Unix epoch: the offset is
/// subtracted only when the stored value exceeds it, since some producers
/// already store Unix-epoch seconds.
pub open spec fn normalized_timestamp(t: u64) -> int {
    if t > MP4_TO_UNIX_OFFSET {
        t - MP4_TO_UNIX_OFFSET
    } else {
        t as int
    }
}

/// Moves a stored MP4 creation time to the Unix epoch, leaving values at or
/// below the epoch offset untouched.
pub fn normalize_mp4_timestamp(t: u64) -> (r: u64)
    ensures
        r as int == normalized_timestamp(t),
{
    if t > MP4_TO_UNIX_OFFSET {
        t - MP4_TO_UNIX_OFFSET
    } else {
        t
    }
}

/// Builds the video record for an MP4 container from its creation time and
/// duration. A container without a creation time is rejected, as is one
/// whose normalized creation time denotes no representable date.
pub fn mp4_video_metadata(creation_time: u64, duration: TimeSpan) -> (r: Result<
    VideoMetadata,
    MetaError,
>)
    ensures
        creation_time == 0 ==> r == Err::<VideoMetadata, MetaError>(MetaError::MissingCreationTime),
        creation_time != 0 ==> {
            let n = normalized_timestamp(creation_time);
            if n > i64::MAX {
                r == Err::<VideoMetadata, MetaError>(MetaError::TimestampOutOfRange)
            } else {
                match utc_text_of(n as i64) {
                    Some(t) => r matches Ok(v) && v.date@ == t && v.video_duration == Some(
                        duration,
                    ),
                    None => r == Err::<VideoMetadata, MetaError>(MetaError::TimestampOutOfRange),
                }
            }
        },
{
    if creation_time == 0 {
        return Err(MetaError::MissingCreationTime);
    }
    let ts = normalize_mp4_timestamp(creation_time);
    if ts > i64::MAX as u64 {
        return Err(MetaError::TimestampOutOfRange);
    }
    match utc_timestamp_text(ts as i64) {
        Some(date) => Ok(VideoMetadata { date, video_duration: Some(duration) }),
        None => Err(MetaError::TimestampOutOfRange),
    }
}

/// Builds the video record from a date text and an optional duration, as
/// the general (non-MP4) video extractor reports them. A missing date fails
/// the whole record.
pub fn build_video_metadata(date: Option<String>, duration: Option<TimeSpan>) -> (r: Result<
    VideoMetadata,
    MetaError,
>)
    ensures
        match date {
            None => r == Err::<VideoMetadata, MetaError>(MetaError::MissingDate),
            Some(d) => r matches Ok(v) && v.date@ == d@ && v.video_duration == duration,
        },
{
    match date {
        None => Err(MetaError::MissingDate),
        Some(d) => Ok(VideoMetadata { date: d, video_duration: duration }),
    }
}

/// Builds the image record from the extracted tag values. A missing capture
/// date fails the whole record; the resolution is kept only when both axis
/// tags were present; model and brightness stay optional.
pub fn build_image_metadata(
    date: Option<String>,
    resolution_x: Option<Rational>,
    resolution_y: Option<Rational>,
    model: Option<String>,
    brightness: Option<String>,
) -> (r: Result<ImageMetadata, MetaError>)
    ensures
        match date {
            None => r == Err::<ImageMetadata, MetaError>(MetaError::MissingDate),
            Some(d) => r matches Ok(m) && m.date@ == d@ && m.model == model && m.brightness
                == brightness && m.resolution == (match (resolution_x, resolution_y) {
                (Some(x), Some(y)) => Some((x, y)),
                _ => None::<(Rational, Rational)>,
            }),
        },
{
    match date {
        None => Err(MetaError::MissingDate),
        Some(d) => {
            let resolution = match (resolution_x, resolution_y) {
                (Some(x), Some(y)) => Some((x, y)),
                _ => None,
            };
            Ok(ImageMetadata { date: d, resolution, model, brightness })
        },
    }
}

/// Builds the file-level record for a path: the base name is the final path
/// component, the extension is taken from it and lower-cased, and a name
/// without an extension is rejected.
pub fn collect_file_metadata(path: &str, file_size: u64, creation_date: Option<String>) -> (r:
    Result<FileMetadata, MetaError>)
    ensures
        ({
            let name = after_last(path@, '/');
            match extension_spec(name) {
                None => r == Err::<FileMetadata, MetaError>(MetaError::MissingExtension),
                Some(e) => r matches Ok(m) && m.base_file_name@ == name && m.extension@
                    == lower_seq(e) && m.file_size == file_size && m.creation_date
                    == creation_date,
            }
        }),
{
    let base_file_name = base_name_of(path);
    match extension_of(base_file_name.as_str()) {
        None => Err(MetaError::MissingExtension),
        Some(e) => {
            let extension = ascii_lower(e.as_str());
            Ok(FileMetadata { base_file_name, file_size, extension, creation_date })
        },
    }
}

/// Which extractor a file needs, by its (lower-cased) extension: MP4
/// containers are read directly, the other video extensions go through the
/// general media parser, and everything else is treated as an image.
#[derive(Clone, Copy, PartialEq, Eq, Structural, Debug)]
pub enum ExtractorKind {
    Mp4,
    GeneralVideo,
    Image,
}

/// The extractor for an extension: `mp4` first, then the remaining video
/// extensions, then images.
pub open spec fn extractor_for_spec(ext: Seq<char>) -> ExtractorKind {
    if ext == "mp4"@ {
        ExtractorKind::Mp4
    } else if ext == "mov"@ || ext == "avi"@ {
        ExtractorKind::GeneralVideo
    } else {
        ExtractorKind::Image
    }
}

/// Picks the extractor for a file by its lower-cased extension.
pub fn extractor_for(ext: &str) -> (r: ExtractorKind)
    ensures
        r == extractor_for_spec(ext@),
{
    if str_eq(ext, "mp4") {
        ExtractorKind::Mp4
    } else if str_eq(ext, "mov") || str_eq(ext, "avi") {
        ExtractorKind::GeneralVideo
    } else {
        ExtractorKind::Image
    }
}

} // verus!
