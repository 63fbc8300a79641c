//! The match engine: decides whether two metadata records denote the same
//! logical asset, under a configurable strictness mode.
//!
//! A pair matches when the file-level gate passes (name in `Paranoid` mode,
//! size within tolerance, extension) and the records share a modality whose
//! own checks pass. Two records of different modalities never match: file
//! attributes alone are not enough evidence.

use vstd::prelude::*;

use crate::model::{
    CollectedMetadata,
    CompareMode,
    FileMetadata,
    ImageMetadata,
    ModalMetadata,
    Rational,
    VideoMetadata,
};
use crate::model::rational_eq;
use crate::model::rational_eq_spec;
use crate::tolerance::within_tolerance;
use crate::tolerance::within_tolerance_spec;

verus! {

/// An optional field blocks a match only when it is present on both sides
/// with different values; missing data never blocks.
pub open spec fn opt_text_matches(a: Option<String>, b: Option<String>) -> bool {
    match (a, b) {
        (Some(x), Some(y)) => x@ == y@,
        _ => true,
    }
}

/// Resolutions match unless both sides have one and either axis differs;
/// the axes compare as rational values.
pub open spec fn opt_resolution_matches(
    a: Option<(Rational, Rational)>,
    b: Option<(Rational, Rational)>,
) -> bool {
    match (a, b) {
        (Some(x), Some(y)) => rational_eq_spec(x.0, y.0) && rational_eq_spec(x.1, y.1),
        _ => true,
    }
}

/// The file-level gate: equal base names when paranoid, sizes within
/// tolerance, equal extensions.
pub open spec fn file_metadata_matches_spec(
    a: FileMetadata,
    b: FileMetadata,
    mode: CompareMode,
) -> bool {
    &&& (mode is Paranoid ==> a.base_file_name@ == b.base_file_name@)
    &&& within_tolerance_spec(a.file_size, b.file_size)
    &&& a.extension@ == b.extension@
}

/// The image modality: capture dates must be exactly equal; model,
/// brightness and resolution must be equal where both sides have them, and
/// are skipped otherwise.
pub open spec fn image_metadata_matches_spec(a: ImageMetadata, b: ImageMetadata) -> bool {
    &&& a.date@ == b.date@
    &&& opt_text_matches(a.model, b.model)
    &&& opt_text_matches(a.brightness, b.brightness)
    &&& opt_resolution_matches(a.resolution, b.resolution)
}

/// The video modality: creation dates must be exactly equal; durations must
/// be exactly equal where both sides have one, are skipped where neither
/// has one, and where only one side has one the pair fails in `Paranoid`
/// mode and passes in `Loose` mode.
pub open spec fn video_metadata_matches_spec(
    a: VideoMetadata,
    b: VideoMetadata,
    mode: CompareMode,
) -> bool {
    &&& a.date@ == b.date@
    &&& match (a.video_duration, b.video_duration) {
        (Some(x), Some(y)) => x == y,
        (None, None) => true,
        _ => mode is Loose,
    }
}

/// Two records denote the same logical asset: the file-level gate passes
/// and the records share a modality whose checks pass.
pub open spec fn entries_match_spec(
    a: CollectedMetadata,
    b: CollectedMetadata,
    mode: CompareMode,
) -> bool {
    &&& file_metadata_matches_spec(a.file_metadata, b.file_metadata, mode)
    &&& match (a.modal_metadata, b.modal_metadata) {
        (ModalMetadata::Image(x), ModalMetadata::Image(y)) => image_metadata_matches_spec(x, y),
        (ModalMetadata::Video(x), ModalMetadata::Video(y)) => video_metadata_matches_spec(
            x,
            y,
            mode,
        ),
        _ => false,
    }
}

fn opt_text_eq(a: &Option<String>, b: &Option<String>) -> (r: bool)
    ensures
        r == opt_text_matches(*a, *b),
{
    match (a, b) {
        (Some(x), Some(y)) => *x == *y,
        _ => true,
    }
}

impl FileMetadata {
    /// Applies the file-level gate to two records.
    pub fn metadata_matches(a: &FileMetadata, b: &FileMetadata, mode: CompareMode) -> (r: bool)
        ensures
            r == file_metadata_matches_spec(*a, *b, mode),
    {
        if mode == CompareMode::Paranoid && !(a.base_file_name == b.base_file_name) {
            return false;
        }
        if !within_tolerance(a.file_size, b.file_size) {
            return false;
        }
        if !(a.extension == b.extension) {
            return false;
        }
        true
    }
}

impl ImageMetadata {
    /// Applies the image-modality checks to two records.
    pub fn metadata_matches(a: &ImageMetadata, b: &ImageMetadata) -> (r: bool)
        ensures
            r == image_metadata_matches_spec(*a, *b),
    {
        if !(a.date == b.date) {
            return false;
        }
        if !opt_text_eq(&a.model, &b.model) {
            return false;
        }
        if !opt_text_eq(&a.brightness, &b.brightness) {
            return false;
        }
        match (&a.resolution, &b.resolution) {
            (Some(x), Some(y)) => rational_eq(x.0, y.0) && rational_eq(x.1, y.1),
            _ => true,
        }
    }
}

impl VideoMetadata {
    /// Applies the video-modality checks to two records.
    pub fn metadata_matches(a: &VideoMetadata, b: &VideoMetadata, mode: CompareMode) -> (r: bool)
        ensures
            r == video_metadata_matches_spec(*a, *b, mode),
    {
        if !(a.date == b.date) {
            return false;
        }
        match (&a.video_duration, &b.video_duration) {
            (Some(x), Some(y)) => *x == *y,
            (None, None) => true,
            _ => mode == CompareMode::Loose,
        }
    }
}

/// Decides whether two records denote the same logical asset under `mode`.
pub fn entries_match(a: &CollectedMetadata, b: &CollectedMetadata, mode: CompareMode) -> (r: bool)
    ensures
        r == entries_match_spec(*a, *b, mode),
{
    if !FileMetadata::metadata_matches(&a.file_metadata, &b.file_metadata, mode) {
        return false;
    }
    match (&a.modal_metadata, &b.modal_metadata) {
        (ModalMetadata::Image(x), ModalMetadata::Image(y)) => ImageMetadata::metadata_matches(x, y),
        (ModalMetadata::Video(x), ModalMetadata::Video(y)) => VideoMetadata::metadata_matches(
            x,
            y,
            mode,
        ),
        _ => false,
    }
}

/// Two records carry the same base file name: the secondary predicate
/// behind the "same name, metadata mismatch" diagnostic.
pub open spec fn same_base_name_spec(a: CollectedMetadata, b: CollectedMetadata) -> bool {
    a.file_metadata.base_file_name@ == b.file_metadata.base_file_name@
}

/// Decides whether two records carry the same base file name.
pub fn same_base_name(a: &CollectedMetadata, b: &CollectedMetadata) -> (r: bool)
    ensures
        r == same_base_name_spec(*a, *b),
{
    a.file_metadata.base_file_name == b.file_metadata.base_file_name
}

/// The match predicate is symmetric: every sub-check compares its two sides
/// by equality or by a tolerance that looks only at the larger and smaller
/// of them.
pub proof fn lemma_entries_match_symmetric(
    a: CollectedMetadata,
    b: CollectedMetadata,
    mode: CompareMode,
)
    ensures
        entries_match_spec(a, b, mode) == entries_match_spec(b, a, mode),
{
}

/// An image record never matches a video record, whatever the mode and the
/// file-level metadata: a match needs a shared modality.
pub proof fn lemma_image_never_matches_video(
    a: CollectedMetadata,
    b: CollectedMetadata,
    mode: CompareMode,
)
    requires
        a.modal_metadata is Image,
        b.modal_metadata is Video,
    ensures
        !entries_match_spec(a, b, mode),
{
}

/// Paranoid mode is strictly stronger than loose mode: whatever matches
/// under `Paranoid` matches under `Loose`. Paranoid adds the base-name
/// requirement and refuses a duration present on one side only; it relaxes
/// nothing.
pub proof fn lemma_paranoid_implies_loose(a: CollectedMetadata, b: CollectedMetadata)
    ensures
        entries_match_spec(a, b, CompareMode::Paranoid) ==> entries_match_spec(
            a,
            b,
            CompareMode::Loose,
        ),
{
}

} // verus!
