use mediadup::matching::entries_match;
use mediadup::matching::same_base_name;
use mediadup::model::{
    CollectedMetadata, CompareMode, FileMetadata, ImageMetadata, ModalMetadata, Rational, TimeSpan,
    VideoMetadata,
};

fn image_record(
    base: &str,
    size: u64,
    ext: &str,
    date: &str,
    model: Option<&str>,
) -> CollectedMetadata {
    CollectedMetadata {
        file_metadata: FileMetadata {
            base_file_name: base.to_owned(),
            file_size: size,
            extension: ext.to_owned(),
            creation_date: None,
        },
        modal_metadata: ModalMetadata::Image(ImageMetadata {
            date: date.to_owned(),
            resolution: None,
            model: model.map(|m| m.to_owned()),
            brightness: None,
        }),
    }
}

fn video_record(
    base: &str,
    size: u64,
    ext: &str,
    date: &str,
    duration: Option<TimeSpan>,
) -> CollectedMetadata {
    CollectedMetadata {
        file_metadata: FileMetadata {
            base_file_name: base.to_owned(),
            file_size: size,
            extension: ext.to_owned(),
            creation_date: None,
        },
        modal_metadata: ModalMetadata::Video(VideoMetadata {
            date: date.to_owned(),
            video_duration: duration,
        }),
    }
}

#[test]
fn identical_images_with_small_size_drift_match_in_both_modes() {
    // Two image records, identical dates and names, 0.5% size drift.
    let a = image_record("IMG_01.jpg", 1_000_000, "jpg", "2023:01:01 12:00:00", None);
    let b = image_record("IMG_01.jpg", 1_005_000, "jpg", "2023:01:01 12:00:00", None);
    assert!(entries_match(&a, &b, CompareMode::Paranoid));
    assert!(entries_match(&a, &b, CompareMode::Loose));
}

#[test]
fn three_percent_size_drift_never_matches() {
    let a = image_record("IMG_01.jpg", 1_000_000, "jpg", "2023:01:01 12:00:00", None);
    let b = image_record("IMG_01.jpg", 1_030_000, "jpg", "2023:01:01 12:00:00", None);
    assert!(!entries_match(&a, &b, CompareMode::Paranoid));
    assert!(!entries_match(&a, &b, CompareMode::Loose));
}

#[test]
fn one_sided_video_duration_passes_only_loose() {
    let a = video_record(
        "clip.mp4",
        5_000_000,
        "mp4",
        "2023-01-01 12:00:00 UTC",
        Some(TimeSpan { secs: 120, nanos: 0 }),
    );
    let b = video_record("clip.mp4", 5_000_000, "mp4", "2023-01-01 12:00:00 UTC", None);
    assert!(!entries_match(&a, &b, CompareMode::Paranoid));
    assert!(entries_match(&a, &b, CompareMode::Loose));
}

#[test]
fn equal_video_durations_match_in_both_modes() {
    let d = Some(TimeSpan { secs: 120, nanos: 0 });
    let a = video_record("clip.mp4", 5_000_000, "mp4", "2023-01-01 12:00:00 UTC", d);
    let b = video_record("clip.mp4", 5_010_000, "mp4", "2023-01-01 12:00:00 UTC", d);
    assert!(entries_match(&a, &b, CompareMode::Paranoid));
    assert!(entries_match(&a, &b, CompareMode::Loose));
}

#[test]
fn differing_video_durations_never_match() {
    let a = video_record(
        "clip.mp4",
        5_000_000,
        "mp4",
        "2023-01-01 12:00:00 UTC",
        Some(TimeSpan { secs: 120, nanos: 0 }),
    );
    let b = video_record(
        "clip.mp4",
        5_000_000,
        "mp4",
        "2023-01-01 12:00:00 UTC",
        Some(TimeSpan { secs: 121, nanos: 0 }),
    );
    assert!(!entries_match(&a, &b, CompareMode::Paranoid));
    assert!(!entries_match(&a, &b, CompareMode::Loose));
}

#[test]
fn image_never_matches_video_even_with_identical_file_metadata() {
    let a = image_record("x.jpg", 1_000, "jpg", "2023:01:01 12:00:00", None);
    let b = video_record("x.jpg", 1_000, "jpg", "2023:01:01 12:00:00", None);
    assert!(!entries_match(&a, &b, CompareMode::Paranoid));
    assert!(!entries_match(&a, &b, CompareMode::Loose));
}

#[test]
fn different_base_names_pass_only_loose() {
    // The pair matches on every check but the file name.
    let a = image_record("IMG_01.jpg", 1_000_000, "jpg", "2023:01:01 12:00:00", None);
    let b = image_record("IMG_02.jpg", 1_000_000, "jpg", "2023:01:01 12:00:00", None);
    assert!(!entries_match(&a, &b, CompareMode::Paranoid));
    assert!(entries_match(&a, &b, CompareMode::Loose));
}

#[test]
fn different_extensions_never_match() {
    // Same stem, different extension: the file-level gate fails on the
    // extension, and the full names differ too.
    let a = image_record("IMG_01.jpg", 1_000_000, "jpg", "2023:01:01 12:00:00", None);
    let b = image_record("IMG_01.heic", 1_000_000, "heic", "2023:01:01 12:00:00", None);
    assert!(!entries_match(&a, &b, CompareMode::Paranoid));
    assert!(!entries_match(&a, &b, CompareMode::Loose));
    assert!(!same_base_name(&a, &b));
}

#[test]
fn one_sided_image_model_is_skipped() {
    let a = image_record("IMG_01.jpg", 1_000_000, "jpg", "2023:01:01 12:00:00", Some("CamA"));
    let b = image_record("IMG_01.jpg", 1_000_000, "jpg", "2023:01:01 12:00:00", None);
    assert!(entries_match(&a, &b, CompareMode::Paranoid));
}

#[test]
fn differing_image_models_never_match() {
    let a = image_record("IMG_01.jpg", 1_000_000, "jpg", "2023:01:01 12:00:00", Some("CamA"));
    let b = image_record("IMG_01.jpg", 1_000_000, "jpg", "2023:01:01 12:00:00", Some("CamB"));
    assert!(!entries_match(&a, &b, CompareMode::Loose));
}

#[test]
fn differing_image_dates_never_match() {
    let a = image_record("IMG_01.jpg", 1_000_000, "jpg", "2023:01:01 12:00:00", None);
    let b = image_record("IMG_01.jpg", 1_000_000, "jpg", "2023:01:01 12:00:01", None);
    assert!(!entries_match(&a, &b, CompareMode::Loose));
}

#[test]
fn equivalent_resolutions_in_different_forms_match() {
    let mut a = image_record("IMG_01.jpg", 1_000_000, "jpg", "2023:01:01 12:00:00", None);
    let mut b = image_record("IMG_01.jpg", 1_000_000, "jpg", "2023:01:01 12:00:00", None);
    if let ModalMetadata::Image(m) = &mut a.modal_metadata {
        m.resolution = Some((
            Rational { numer: 4000, denom: 1 },
            Rational { numer: 3000, denom: 1 },
        ));
    }
    if let ModalMetadata::Image(m) = &mut b.modal_metadata {
        m.resolution = Some((
            Rational { numer: 8000, denom: 2 },
            Rational { numer: 6000, denom: 2 },
        ));
    }
    assert!(entries_match(&a, &b, CompareMode::Paranoid));
}

#[test]
fn matching_is_symmetric_on_concrete_pairs() {
    let a = video_record(
        "clip.mp4",
        5_000_000,
        "mp4",
        "2023-01-01 12:00:00 UTC",
        Some(TimeSpan { secs: 120, nanos: 0 }),
    );
    let b = video_record("clip.mp4", 5_000_000, "mp4", "2023-01-01 12:00:00 UTC", None);
    for mode in [CompareMode::Loose, CompareMode::Paranoid] {
        assert_eq!(entries_match(&a, &b, mode), entries_match(&b, &a, mode));
    }
}
