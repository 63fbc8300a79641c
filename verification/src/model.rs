//! The typed metadata model: what the system knows about a scanned file.
//!
//! Every entry carries file-level metadata; depending on the file's
//! extension it additionally carries exactly one kind-specific branch,
//! either image metadata or video metadata. The two branches are a tagged
//! union, so a record can never hold both.

use vstd::prelude::*;

verus! {

/// A rational number as stored in EXIF tags: a numerator/denominator pair.
/// Two rationals denote the same value when they agree under
/// cross-multiplication; see [`rational_eq`].
#[derive(Clone, Copy, PartialEq, Eq, Structural, Debug)]
pub struct Rational {
    pub numer: i32,
    pub denom: i32,
}

/// Mathematical equality of two rationals: `a/b == c/d` iff `a*d == c*b`.
pub open spec fn rational_eq_spec(a: Rational, b: Rational) -> bool {
    a.numer * b.denom == b.numer * a.denom
}

/// Decides mathematical equality of two rationals by cross-multiplication,
/// so equal values compare equal even when not in reduced form.
pub fn rational_eq(a: Rational, b: Rational) -> (r: bool)
    ensures
        r == rational_eq_spec(a, b),
{
    let an: i64 = a.numer as i64;
    let ad: i64 = a.denom as i64;
    let bn: i64 = b.numer as i64;
    let bd: i64 = b.denom as i64;
    proof {
        assert(-0x4000_0000_0000_0000i64 <= an * bd <= 0x4000_0000_0000_0000i64
            && -0x4000_0000_0000_0000i64 <= bn * ad <= 0x4000_0000_0000_0000i64) by (nonlinear_arith)
            requires
                -0x8000_0000i64 <= an <= 0x7fff_ffffi64,
                -0x8000_0000i64 <= ad <= 0x7fff_ffffi64,
                -0x8000_0000i64 <= bn <= 0x7fff_ffffi64,
                -0x8000_0000i64 <= bd <= 0x7fff_ffffi64;
    }
    an * bd == bn * ad
}

/// A wall-clock playback length, split into whole seconds and the nanosecond
/// remainder. Two spans are equal only when both components are equal.
#[derive(Clone, Copy, PartialEq, Eq, Structural, Debug)]
pub struct TimeSpan {
    pub secs: u64,
    pub nanos: u32,
}

/// File-level metadata, present for every entry.
#[derive(Debug, PartialEq, Eq)]
pub struct FileMetadata {
    /// Final path component, extension included.
    pub base_file_name: String,
    /// Byte length of the file.
    pub file_size: u64,
    /// Extension without the leading dot, lower-cased at construction.
    pub extension: String,
    /// Best-available creation timestamp, textual; format varies by source.
    pub creation_date: Option<String>,
}

/// Image-specific metadata, present for image extensions.
#[derive(Debug, PartialEq, Eq)]
pub struct ImageMetadata {
    /// EXIF original capture date/time; required.
    pub date: String,
    /// Pixel width and height as EXIF rationals, when both axis tags exist.
    pub resolution: Option<(Rational, Rational)>,
    /// Camera or device model tag.
    pub model: Option<String>,
    /// EXIF brightness value, kept as opaque text.
    pub brightness: Option<String>,
}

/// Video-specific metadata, present for video extensions.
#[derive(Debug, PartialEq, Eq)]
pub struct VideoMetadata {
    /// Creation timestamp, normalized to a fixed textual representation.
    pub date: String,
    /// Playback length derived from the container, when available.
    pub video_duration: Option<TimeSpan>,
}

/// The kind-specific branch of a record: exactly one of image or video.
#[derive(Debug, PartialEq, Eq)]
pub enum ModalMetadata {
    Image(ImageMetadata),
    Video(VideoMetadata),
}

/// Everything extracted for one file: the mandatory file-level record plus
/// the single kind-specific branch.
#[derive(Debug, PartialEq, Eq)]
pub struct CollectedMetadata {
    pub file_metadata: FileMetadata,
    pub modal_metadata: ModalMetadata,
}

/// A scanned file: its path, its extracted metadata, and whether it belongs
/// to the destination (archive) tree.
#[derive(Debug, PartialEq, Eq)]
pub struct Entry {
    pub path: String,
    pub metadata: CollectedMetadata,
    pub is_dest: bool,
}

/// How much missing or divergent evidence is tolerated before two records
/// are declared a match.
#[derive(Clone, Copy, PartialEq, Eq, Structural, Debug)]
pub enum CompareMode {
    Loose,
    Paranoid,
}

/// The filesystem operation planned for a matched pair.
#[derive(Clone, Copy, PartialEq, Eq, Structural, Debug)]
pub enum FileCommand {
    Move,
    Copy,
    Delete,
    Print,
}

/// The lower-case name of an operation, as the emitted script spells it.
pub open spec fn command_name_spec(c: FileCommand) -> Seq<char> {
    match c {
        FileCommand::Move => "move"@,
        FileCommand::Copy => "copy"@,
        FileCommand::Delete => "delete"@,
        FileCommand::Print => "print"@,
    }
}

impl FileCommand {
    /// The lower-case name of the operation.
    pub fn name(&self) -> (r: String)
        ensures
            r@ == command_name_spec(*self),
    {
        match self {
            FileCommand::Move => String::from_str("move"),
            FileCommand::Copy => String::from_str("copy"),
            FileCommand::Delete => String::from_str("delete"),
            FileCommand::Print => String::from_str("print"),
        }
    }
}

/// Only deletion is carried through to the emitted script; the other
/// operations are configuration values without an implemented effect and
/// are rejected when the run is configured, not after the scan.
pub fn operation_supported(c: FileCommand) -> (r: bool)
    ensures
        r == (c is Delete),
{
    c == FileCommand::Delete
}

/// Why a metadata record could not be built from extracted values.
#[derive(Clone, Copy, PartialEq, Eq, Structural, Debug)]
pub enum MetaError {
    /// The file name has no extension.
    MissingExtension,
    /// The capture or creation date tag is absent.
    MissingDate,
    /// The container stores no creation time.
    MissingCreationTime,
    /// The stored creation time does not denote a representable date.
    TimestampOutOfRange,
}

fn clone_opt_string(o: &Option<String>) -> (r: Option<String>)
    ensures
        r == *o,
{
    match o {
        Some(s) => Some(s.clone()),
        None => None,
    }
}

impl Clone for FileMetadata {
    fn clone(&self) -> (r: Self)
        ensures
            r == *self,
    {
        FileMetadata {
            base_file_name: self.base_file_name.clone(),
            file_size: self.file_size,
            extension: self.extension.clone(),
            creation_date: clone_opt_string(&self.creation_date),
        }
    }
}

impl Clone for ImageMetadata {
    fn clone(&self) -> (r: Self)
        ensures
            r == *self,
    {
        ImageMetadata {
            date: self.date.clone(),
            resolution: self.resolution,
            model: clone_opt_string(&self.model),
            brightness: clone_opt_string(&self.brightness),
        }
    }
}

impl Clone for VideoMetadata {
    fn clone(&self) -> (r: Self)
        ensures
            r == *self,
    {
        VideoMetadata { date: self.date.clone(), video_duration: self.video_duration }
    }
}

impl Clone for ModalMetadata {
    fn clone(&self) -> (r: Self)
        ensures
            r == *self,
    {
        match self {
            ModalMetadata::Image(m) => ModalMetadata::Image(m.clone()),
            ModalMetadata::Video(m) => ModalMetadata::Video(m.clone()),
        }
    }
}

impl Clone for CollectedMetadata {
    fn clone(&self) -> (r: Self)
        ensures
            r == *self,
    {
        CollectedMetadata {
            file_metadata: self.file_metadata.clone(),
            modal_metadata: self.modal_metadata.clone(),
        }
    }
}

impl Clone for Entry {
    fn clone(&self) -> (r: Self)
        ensures
            r == *self,
    {
        Entry { path: self.path.clone(), metadata: self.metadata.clone(), is_dest: self.is_dest }
    }
}

} // verus!
