//! Signs that a file hides what it is: a second extension that names a
//! known kind of file, or content of another kind than its extension says.
use crate::text::{
    append_str, file_name_of, owned, path_extension, path_extension_of, path_file_name, str_equal,
    str_to_lowercase, unicode_lowercase,
};
use crate::tokens::{split_on_char, text_pieces};
use vstd::prelude::*;

verus! {

/// The broad kind of a file format, as content sniffing reports it.
#[derive(Debug, Clone, Copy, PartialEq, Eq, Hash, Structural)]
pub enum Kind {
    Archive,
    Audio,
    Compressed,
    Database,
    Diagram,
    Disk,
    Document,
    Ebook,
    Executable,
    Font,
    Formula,
    Geospatial,
    Image,
    Metadata,
    Model,
    Other,
    Package,
    Playlist,
    Presentation,
    Rom,
    Spreadsheet,
    Subtitle,
    Video,
}

/// The kind a file extension (lower-case, without the dot) is expected to
/// have; `None` for extensions the analysis does not know.
pub open spec fn kind_of_extension(ext: Seq<char>) -> Option<Kind> {
    if ext == "exe"@ {
        Some(Kind::Executable)
    } else if ext == "dll"@ {
        Some(Kind::Executable)
    } else if ext == "so"@ {
        Some(Kind::Executable)
    } else if ext == "elf"@ {
        Some(Kind::Executable)
    } else if ext == "com"@ {
        Some(Kind::Executable)
    } else if ext == "bat"@ {
        Some(Kind::Executable)
    } else if ext == "cmd"@ {
        Some(Kind::Executable)
    } else if ext == "scr"@ {
        Some(Kind::Executable)
    } else if ext == "msi"@ {
        Some(Kind::Executable)
    } else if ext == "jar"@ {
        Some(Kind::Executable)
    } else if ext == "sh"@ {
        Some(Kind::Executable)
    } else if ext == "ps1"@ {
        Some(Kind::Executable)
    } else if ext == "7z"@ {
        Some(Kind::Archive)
    } else if ext == "zip"@ {
        Some(Kind::Archive)
    } else if ext == "rar"@ {
        Some(Kind::Archive)
    } else if ext == "tar"@ {
        Some(Kind::Archive)
    } else if ext == "gz"@ {
        Some(Kind::Archive)
    } else if ext == "bz2"@ {
        Some(Kind::Archive)
    } else if ext == "xz"@ {
        Some(Kind::Archive)
    } else if ext == "zst"@ {
        Some(Kind::Archive)
    } else if ext == "deb"@ {
        Some(Kind::Archive)
    } else if ext == "rpm"@ {
        Some(Kind::Archive)
    } else if ext == "mp3"@ {
        Some(Kind::Audio)
    } else if ext == "wav"@ {
        Some(Kind::Audio)
    } else if ext == "flac"@ {
        Some(Kind::Audio)
    } else if ext == "ogg"@ {
        Some(Kind::Audio)
    } else if ext == "m4a"@ {
        Some(Kind::Audio)
    } else if ext == "aac"@ {
        Some(Kind::Audio)
    } else if ext == "pdf"@ {
        Some(Kind::Document)
    } else if ext == "doc"@ {
        Some(Kind::Document)
    } else if ext == "docx"@ {
        Some(Kind::Document)
    } else if ext == "odt"@ {
        Some(Kind::Document)
    } else if ext == "rtf"@ {
        Some(Kind::Document)
    } else if ext == "xls"@ {
        Some(Kind::Spreadsheet)
    } else if ext == "xlsx"@ {
        Some(Kind::Spreadsheet)
    } else if ext == "ods"@ {
        Some(Kind::Spreadsheet)
    } else if ext == "ppt"@ {
        Some(Kind::Presentation)
    } else if ext == "pptx"@ {
        Some(Kind::Presentation)
    } else if ext == "odp"@ {
        Some(Kind::Presentation)
    } else if ext == "jpg"@ {
        Some(Kind::Image)
    } else if ext == "jpeg"@ {
        Some(Kind::Image)
    } else if ext == "png"@ {
        Some(Kind::Image)
    } else if ext == "gif"@ {
        Some(Kind::Image)
    } else if ext == "bmp"@ {
        Some(Kind::Image)
    } else if ext == "tif"@ {
        Some(Kind::Image)
    } else if ext == "tiff"@ {
        Some(Kind::Image)
    } else if ext == "webp"@ {
        Some(Kind::Image)
    } else if ext == "heic"@ {
        Some(Kind::Image)
    } else if ext == "heif"@ {
        Some(Kind::Image)
    } else if ext == "ico"@ {
        Some(Kind::Image)
    } else if ext == "psd"@ {
        Some(Kind::Image)
    } else if ext == "mp4"@ {
        Some(Kind::Video)
    } else if ext == "mkv"@ {
        Some(Kind::Video)
    } else if ext == "mov"@ {
        Some(Kind::Video)
    } else if ext == "avi"@ {
        Some(Kind::Video)
    } else if ext == "wmv"@ {
        Some(Kind::Video)
    } else if ext == "webm"@ {
        Some(Kind::Video)
    } else if ext == "flv"@ {
        Some(Kind::Video)
    } else {
        None
    }
}

/// The kind a lower-case file extension is expected to have.
pub fn expected_kind(ext: &str) -> (r: Option<Kind>)
    ensures
        r == kind_of_extension(ext@),
{
    if str_equal(ext, "exe") {
        Some(Kind::Executable)
    } else if str_equal(ext, "dll") {
        Some(Kind::Executable)
    } else if str_equal(ext, "so") {
        Some(Kind::Executable)
    } else if str_equal(ext, "elf") {
        Some(Kind::Executable)
    } else if str_equal(ext, "com") {
        Some(Kind::Executable)
    } else if str_equal(ext, "bat") {
        Some(Kind::Executable)
    } else if str_equal(ext, "cmd") {
        Some(Kind::Executable)
    } else if str_equal(ext, "scr") {
        Some(Kind::Executable)
    } else if str_equal(ext, "msi") {
        Some(Kind::Executable)
    } else if str_equal(ext, "jar") {
        Some(Kind::Executable)
    } else if str_equal(ext, "sh") {
        Some(Kind::Executable)
    } else if str_equal(ext, "ps1") {
        Some(Kind::Executable)
    } else if str_equal(ext, "7z") {
        Some(Kind::Archive)
    } else if str_equal(ext, "zip") {
        Some(Kind::Archive)
    } else if str_equal(ext, "rar") {
        Some(Kind::Archive)
    } else if str_equal(ext, "tar") {
        Some(Kind::Archive)
    } else if str_equal(ext, "gz") {
        Some(Kind::Archive)
    } else if str_equal(ext, "bz2") {
        Some(Kind::Archive)
    } else if str_equal(ext, "xz") {
        Some(Kind::Archive)
    } else if str_equal(ext, "zst") {
        Some(Kind::Archive)
    } else if str_equal(ext, "deb") {
        Some(Kind::Archive)
    } else if str_equal(ext, "rpm") {
        Some(Kind::Archive)
    } else if str_equal(ext, "mp3") {
        Some(Kind::Audio)
    } else if str_equal(ext, "wav") {
        Some(Kind::Audio)
    } else if str_equal(ext, "flac") {
        Some(Kind::Audio)
    } else if str_equal(ext, "ogg") {
        Some(Kind::Audio)
    } else if str_equal(ext, "m4a") {
        Some(Kind::Audio)
    } else if str_equal(ext, "aac") {
        Some(Kind::Audio)
    } else if str_equal(ext, "pdf") {
        Some(Kind::Document)
    } else if str_equal(ext, "doc") {
        Some(Kind::Document)
    } else if str_equal(ext, "docx") {
        Some(Kind::Document)
    } else if str_equal(ext, "odt") {
        Some(Kind::Document)
    } else if str_equal(ext, "rtf") {
        Some(Kind::Document)
    } else if str_equal(ext, "xls") {
        Some(Kind::Spreadsheet)
    } else if str_equal(ext, "xlsx") {
        Some(Kind::Spreadsheet)
    } else if str_equal(ext, "ods") {
        Some(Kind::Spreadsheet)
    } else if str_equal(ext, "ppt") {
        Some(Kind::Presentation)
    } else if str_equal(ext, "pptx") {
        Some(Kind::Presentation)
    } else if str_equal(ext, "odp") {
        Some(Kind::Presentation)
    } else if str_equal(ext, "jpg") {
        Some(Kind::Image)
    } else if str_equal(ext, "jpeg") {
        Some(Kind::Image)
    } else if str_equal(ext, "png") {
        Some(Kind::Image)
    } else if str_equal(ext, "gif") {
        Some(Kind::Image)
    } else if str_equal(ext, "bmp") {
        Some(Kind::Image)
    } else if str_equal(ext, "tif") {
        Some(Kind::Image)
    } else if str_equal(ext, "tiff") {
        Some(Kind::Image)
    } else if str_equal(ext, "webp") {
        Some(Kind::Image)
    } else if str_equal(ext, "heic") {
        Some(Kind::Image)
    } else if str_equal(ext, "heif") {
        Some(Kind::Image)
    } else if str_equal(ext, "ico") {
        Some(Kind::Image)
    } else if str_equal(ext, "psd") {
        Some(Kind::Image)
    } else if str_equal(ext, "mp4") {
        Some(Kind::Video)
    } else if str_equal(ext, "mkv") {
        Some(Kind::Video)
    } else if str_equal(ext, "mov") {
        Some(Kind::Video)
    } else if str_equal(ext, "avi") {
        Some(Kind::Video)
    } else if str_equal(ext, "wmv") {
        Some(Kind::Video)
    } else if str_equal(ext, "webm") {
        Some(Kind::Video)
    } else if str_equal(ext, "flv") {
        Some(Kind::Video)
    } else {
        None
    }
}

/// The name of each kind.
pub open spec fn kind_name(k: Kind) -> Seq<char> {
    match k {
        Kind::Archive => "Archive"@,
        Kind::Audio => "Audio"@,
        Kind::Compressed => "Compressed"@,
        Kind::Database => "Database"@,
        Kind::Diagram => "Diagram"@,
        Kind::Disk => "Disk"@,
        Kind::Document => "Document"@,
        Kind::Ebook => "Ebook"@,
        Kind::Executable => "Executable"@,
        Kind::Font => "Font"@,
        Kind::Formula => "Formula"@,
        Kind::Geospatial => "Geospatial"@,
        Kind::Image => "Image"@,
        Kind::Metadata => "Metadata"@,
        Kind::Model => "Model"@,
        Kind::Other => "Other"@,
        Kind::Package => "Package"@,
        Kind::Playlist => "Playlist"@,
        Kind::Presentation => "Presentation"@,
        Kind::Rom => "Rom"@,
        Kind::Spreadsheet => "Spreadsheet"@,
        Kind::Subtitle => "Subtitle"@,
        Kind::Video => "Video"@,
    }
}

impl Kind {
    /// The name of this kind.
    pub fn name(&self) -> (r: String)
        ensures
            r@ == kind_name(*self),
    {
        match self {
            Kind::Archive => owned("Archive"),
            Kind::Audio => owned("Audio"),
            Kind::Compressed => owned("Compressed"),
            Kind::Database => owned("Database"),
            Kind::Diagram => owned("Diagram"),
            Kind::Disk => owned("Disk"),
            Kind::Document => owned("Document"),
            Kind::Ebook => owned("Ebook"),
            Kind::Executable => owned("Executable"),
            Kind::Font => owned("Font"),
            Kind::Formula => owned("Formula"),
            Kind::Geospatial => owned("Geospatial"),
            Kind::Image => owned("Image"),
            Kind::Metadata => owned("Metadata"),
            Kind::Model => owned("Model"),
            Kind::Other => owned("Other"),
            Kind::Package => owned("Package"),
            Kind::Playlist => owned("Playlist"),
            Kind::Presentation => owned("Presentation"),
            Kind::Rom => owned("Rom"),
            Kind::Spreadsheet => owned("Spreadsheet"),
            Kind::Subtitle => owned("Subtitle"),
            Kind::Video => owned("Video"),
        }
    }
}

/// Why a file is suspicious.
#[derive(Debug)]
pub enum SuspicionReason {
    /// The file name carries a second, known extension before the last one.
    DeceptiveExtension { hidden_ext: String },
    /// The content is of another kind than the extension says.
    ContentMismatch { expected: Kind, actual: Kind },
}

/// The contents of a [`SuspicionReason`].
pub ghost enum Suspicion {
    DeceptiveExtension { hidden_ext: Seq<char> },
    ContentMismatch { expected: Kind, actual: Kind },
}

impl View for SuspicionReason {
    type V = Suspicion;

    open spec fn view(&self) -> Suspicion {
        match self {
            SuspicionReason::DeceptiveExtension { hidden_ext } => Suspicion::DeceptiveExtension { hidden_ext: hidden_ext@ },
            SuspicionReason::ContentMismatch { expected, actual } => Suspicion::ContentMismatch {
                expected: *expected,
                actual: *actual,
            },
        }
    }
}

/// The contents of an optional reason.
pub open spec fn suspicion_view(r: Option<SuspicionReason>) -> Option<Suspicion> {
    match r {
        Some(r) => Some(r@),
        None => None,
    }
}

impl Clone for SuspicionReason {
    fn clone(&self) -> (r: Self)
        ensures
            r@ == self@,
    {
        match self {
            SuspicionReason::DeceptiveExtension { hidden_ext } => SuspicionReason::DeceptiveExtension {
                hidden_ext: hidden_ext.clone(),
            },
            SuspicionReason::ContentMismatch { expected, actual } => SuspicionReason::ContentMismatch {
                expected: *expected,
                actual: *actual,
            },
        }
    }
}

/// The message that explains a reason to the user.
pub open spec fn suspicion_message(r: Suspicion) -> Seq<char> {
    match r {
        Suspicion::DeceptiveExtension { hidden_ext } => "Extensión engañosa, parece ocultar un archivo '."@ + hidden_ext
            + "'"@,
        Suspicion::ContentMismatch { expected, actual } => "El contenido parece ser '"@ + kind_name(actual)
            + "' pero la extensión indica '"@ + kind_name(expected) + "'"@,
    }
}

impl SuspicionReason {
    /// The message that explains this reason to the user.
    pub fn to_string(&self) -> (r: String)
        ensures
            r@ == suspicion_message(self@),
    {
        match self {
            SuspicionReason::DeceptiveExtension { hidden_ext } => {
                let s = owned("Extensión engañosa, parece ocultar un archivo '.");
                let s = append_str(s, hidden_ext.as_str());
                append_str(s, "'")
            },
            SuspicionReason::ContentMismatch { expected, actual } => {
                let s = owned("El contenido parece ser '");
                let a = actual.name();
                let s = append_str(s, a.as_str());
                let s = append_str(s, "' pero la extensión indica '");
                let e = expected.name();
                let s = append_str(s, e.as_str());
                append_str(s, "'")
            },
        }
    }
}

/// The known extension hidden before the last one in the file name of
/// `path` (as in `photo.jpg.exe`), lower-cased: the second-to-last of the
/// name's `.`-separated pieces, when there are at least three pieces and the
/// analysis knows that extension.
pub open spec fn hidden_extension(path: Seq<char>) -> Option<Seq<char>> {
    match path_file_name(path) {
        Some(name) => {
            let parts = text_pieces(name, '.');
            if parts.len() < 3 {
                None
            } else {
                let middle = unicode_lowercase(parts[parts.len() - 2]);
                if kind_of_extension(middle) is Some {
                    Some(middle)
                } else {
                    None
                }
            }
        },
        None => None,
    }
}

/// The known extension hidden before the last one in a file name, if any.
pub fn has_suspicious_extension_pattern(path: &str) -> (r: Option<String>)
    ensures
        r.deep_view() == hidden_extension(path@),
{
    let name = match file_name_of(path) {
        Some(n) => n,
        None => {
            return None;
        },
    };
    let parts = split_on_char(name.as_str(), '.');
    if parts.len() < 3 {
        return None;
    }
    let middle = str_to_lowercase(parts[parts.len() - 2].as_str());
    assert(crate::text::strings_view(parts@)[parts.len() - 2] == parts@[parts.len() - 2]@);
    match expected_kind(middle.as_str()) {
        Some(_) => Some(middle),
        None => None,
    }
}

/// Office documents are zip archives inside: a document, spreadsheet or
/// presentation whose content is an archive is not a mismatch.
pub open spec fn is_office_archive(expected: Kind, actual: Kind) -> bool {
    (expected == Kind::Document || expected == Kind::Spreadsheet || expected == Kind::Presentation)
        && actual == Kind::Archive
}

/// Why the file at `path` is suspicious, given the kind its content was
/// detected as (`None` when the content could not be read): a hidden known
/// extension first; else, for a known extension, content of another kind
/// (office documents read as archives excepted).
pub open spec fn suspicion_of(path: Seq<char>, detected: Option<Kind>) -> Option<Suspicion> {
    match hidden_extension(path) {
        Some(h) => Some(Suspicion::DeceptiveExtension { hidden_ext: h }),
        None => match detected {
            None => None,
            Some(actual) => match path_extension(path) {
                None => None,
                Some(ext) => match kind_of_extension(unicode_lowercase(ext)) {
                    None => None,
                    Some(expected) => if actual != expected && !is_office_archive(expected, actual) {
                        Some(Suspicion::ContentMismatch { expected, actual })
                    } else {
                        None
                    },
                },
            },
        },
    }
}

/// Why the file at `path` is suspicious, if it is; `detected` is the kind of
/// its content, `None` when it could not be read.
pub fn is_file_suspicious(path: &str, detected: Option<Kind>) -> (r: Option<SuspicionReason>)
    ensures
        suspicion_view(r) == suspicion_of(path@, detected),
{
    if let Some(hidden_ext) = has_suspicious_extension_pattern(path) {
        return Some(SuspicionReason::DeceptiveExtension { hidden_ext });
    }
    let actual = match detected {
        Some(k) => k,
        None => {
            return None;
        },
    };
    let ext = match path_extension_of(path) {
        Some(e) => e,
        None => {
            return None;
        },
    };
    let lower = str_to_lowercase(ext.as_str());
    let expected = match expected_kind(lower.as_str()) {
        Some(k) => k,
        None => {
            return None;
        },
    };
    if actual != expected {
        let is_office_archive_exception = (expected == Kind::Document || expected == Kind::Spreadsheet
            || expected == Kind::Presentation) && actual == Kind::Archive;
        if is_office_archive_exception {
            return None;
        }
        return Some(SuspicionReason::ContentMismatch { expected, actual });
    }
    None
}

/// A hidden known extension makes a file suspicious whatever its content.
pub proof fn hidden_extension_always_flags(path: Seq<char>, detected: Option<Kind>)
    requires
        hidden_extension(path) is Some,
    ensures
        suspicion_of(path, detected) == Some(Suspicion::DeceptiveExtension { hidden_ext: hidden_extension(path).unwrap() }),
{
}

/// Content of the kind its extension names is never suspicious, unless the
/// name hides a known extension.
pub proof fn matching_content_is_clean(path: Seq<char>, k: Kind)
    requires
        hidden_extension(path) is None,
        path_extension(path) matches Some(ext) && kind_of_extension(unicode_lowercase(ext)) == Some(k),
    ensures
        suspicion_of(path, Some(k)) is None,
{
}

/// Office documents are zip archives inside: a file whose extension names a
/// document, a spreadsheet or a presentation, and whose name hides no other
/// extension, is never suspicious when its content is read as an archive.
pub proof fn office_archives_are_clean(path: Seq<char>, k: Kind)
    requires
        hidden_extension(path) is None,
        path_extension(path) matches Some(ext) && kind_of_extension(unicode_lowercase(ext)) == Some(k),
        k == Kind::Document || k == Kind::Spreadsheet || k == Kind::Presentation,
    ensures
        suspicion_of(path, Some(Kind::Archive)) is None,
{
}

/// Content read as another kind than the extension names is flagged with
/// both kinds, except for an office document read as an archive; a name
/// that hides no extension and whose content could not be read, or whose
/// extension is unknown, is not flagged.
pub proof fn mismatched_content_is_flagged(path: Seq<char>, detected: Option<Kind>)
    requires
        hidden_extension(path) is None,
    ensures
        detected is None ==> suspicion_of(path, detected) is None,
        (path_extension(path) is None || kind_of_extension(unicode_lowercase(path_extension(path).unwrap())) is None)
            ==> suspicion_of(path, detected) is None,
        (path_extension(path) matches Some(ext) && kind_of_extension(unicode_lowercase(ext)) matches Some(k)
            && detected matches Some(a) && a != k
            && !((k == Kind::Document || k == Kind::Spreadsheet || k == Kind::Presentation) && a == Kind::Archive))
            ==> suspicion_of(path, detected) == Some(Suspicion::ContentMismatch {
                expected: kind_of_extension(unicode_lowercase(path_extension(path).unwrap())).unwrap(),
                actual: detected.unwrap(),
            }),
{
}

} // verus!
