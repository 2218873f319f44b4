use super::profile_style::{IconSource, ProfileStyle};
use crate::text::{
    chars_of, contains_string, find_char, first_index, opt_seq, owned, owned_all, path_extension,
    path_extension_of, push_char, str_equal, str_to_lowercase, string_from_range, unicode_lowercase,
};
use vstd::prelude::*;

verus! {

/// The top-level kind of a media type (`application/...`, `audio/...`, ...).
#[derive(Debug, Clone, Copy, PartialEq, Eq, Structural)]
pub enum FileCategory {
    Application,
    Audio,
    Image,
    Model,
    Text,
    Video,
    Other,
}

/// The category named by the top-level part of a media type.
pub open spec fn category_named(s: Seq<char>) -> FileCategory {
    if s == "application"@ {
        FileCategory::Application
    } else if s == "audio"@ {
        FileCategory::Audio
    } else if s == "image"@ {
        FileCategory::Image
    } else if s == "model"@ {
        FileCategory::Model
    } else if s == "text"@ {
        FileCategory::Text
    } else if s == "video"@ {
        FileCategory::Video
    } else {
        FileCategory::Other
    }
}

impl FileCategory {
    /// The category named by the top-level part of a media type.
    pub fn from_name(mime_type: &str) -> (r: FileCategory)
        ensures
            r == category_named(mime_type@),
    {
        if str_equal(mime_type, "application") {
            FileCategory::Application
        } else if str_equal(mime_type, "audio") {
            FileCategory::Audio
        } else if str_equal(mime_type, "image") {
            FileCategory::Image
        } else if str_equal(mime_type, "model") {
            FileCategory::Model
        } else if str_equal(mime_type, "text") {
            FileCategory::Text
        } else if str_equal(mime_type, "video") {
            FileCategory::Video
        } else {
            FileCategory::Other
        }
    }
}

impl From<String> for FileCategory {
    fn from(mime_type: String) -> (r: FileCategory) {
        FileCategory::from_name(mime_type.as_str())
    }
}

impl vstd::std_specs::convert::FromSpecImpl<String> for FileCategory {
    open spec fn obeys_from_spec() -> bool {
        true
    }

    open spec fn from_spec(mime_type: String) -> FileCategory {
        category_named(mime_type@)
    }
}

/// A set of criteria that selects files: categories of media type, exact media
/// types and file extensions, with the style the profile is shown in.
#[derive(Debug)]
pub struct Profile {
    name: String,
    categories: Option<Vec<FileCategory>>,
    mime_types: Option<Vec<String>>,
    extensions: Option<Vec<String>>,
    profile_style: ProfileStyle,
}

/// The contents of a [`Profile`].
pub ghost struct ProfileView {
    pub name: Seq<char>,
    pub categories: Option<Seq<FileCategory>>,
    pub mime_types: Option<Seq<Seq<char>>>,
    pub extensions: Option<Seq<Seq<char>>>,
    pub bg_color: u32,
    pub icon_source: IconSource,
}

impl View for Profile {
    type V = ProfileView;

    closed spec fn view(&self) -> ProfileView {
        ProfileView {
            name: self.name@,
            categories: opt_seq(self.categories),
            mime_types: self.mime_types.deep_view(),
            extensions: self.extensions.deep_view(),
            bg_color: self.profile_style.spec_bg_color(),
            icon_source: self.profile_style.spec_icon_source(),
        }
    }
}

/// A copy of a list of categories.
fn clone_categories(v: &Option<Vec<FileCategory>>) -> (r: Option<Vec<FileCategory>>)
    ensures
        opt_seq(r) == opt_seq(*v),
{
    match v {
        Some(cats) => {
            let mut out: Vec<FileCategory> = Vec::new();
            let mut i: usize = 0;
            while i < cats.len()
                invariant
                    0 <= i <= cats.len(),
                    out@ == cats@.take(i as int),
                decreases cats.len() - i,
            {
                out.push(cats[i]);
                assert(cats@.take(i + 1) == cats@.take(i as int).push(cats@[i as int]));
                i += 1;
            }
            assert(cats@.take(cats.len() as int) == cats@);
            Some(out)
        },
        None => None,
    }
}

/// A copy of an optional list of strings.
fn clone_string_list(v: &Option<Vec<String>>) -> (r: Option<Vec<String>>)
    ensures
        r.deep_view() == v.deep_view(),
{
    match v {
        Some(items) => {
            let out = items.clone();
            proof {
                broadcast use vstd::std_specs::vec::vec_clone_deep_view_proof;
                assert(out.deep_view() =~= items.deep_view());
            }
            Some(out)
        },
        None => None,
    }
}

impl Clone for Profile {
    fn clone(&self) -> (r: Self)
        ensures
            r@ == self@,
    {
        Profile {
            name: self.name.clone(),
            categories: clone_categories(&self.categories),
            mime_types: clone_string_list(&self.mime_types),
            extensions: clone_string_list(&self.extensions),
            profile_style: self.profile_style,
        }
    }
}

/// The part of a media type before its first `/` (all of it when there is none).
pub open spec fn media_top_level(m: Seq<char>) -> Seq<char> {
    match first_index(m, '/') {
        Some(i) => m.take(i),
        None => m,
    }
}

/// The extension of the path, lower-cased and prefixed with a dot, is one of
/// the profile's extensions.
pub open spec fn matches_extension(extensions: Option<Seq<Seq<char>>>, path: Seq<char>) -> bool {
    &&& extensions is Some
    &&& path_extension(path) is Some
    &&& extensions.unwrap().contains(seq!['.'] + unicode_lowercase(path_extension(path).unwrap()))
}

/// The media type is one of the profile's media types, or its top-level part
/// names one of the profile's categories.
pub open spec fn matches_media_type(
    mime_types: Option<Seq<Seq<char>>>,
    categories: Option<Seq<FileCategory>>,
    media_type: Seq<char>,
) -> bool {
    ||| (mime_types is Some && mime_types.unwrap().contains(media_type))
    ||| (categories is Some && categories.unwrap().contains(category_named(media_top_level(media_type))))
}

/// A profile selects the file at `path`, whose content has the media type
/// `media_type` when it could be determined.
pub open spec fn profile_matches(p: ProfileView, path: Seq<char>, media_type: Option<Seq<char>>) -> bool {
    ||| matches_extension(p.extensions, path)
    ||| (media_type is Some && matches_media_type(p.mime_types, p.categories, media_type.unwrap()))
}

/// The extension of `path`, lower-cased and prefixed with a dot.
pub fn dotted_lowercase_extension(path: &str) -> (r: Option<String>)
    ensures
        r.deep_view() == match path_extension(path@) {
            Some(e) => Some(seq!['.'] + unicode_lowercase(e)),
            None => None,
        },
{
    match path_extension_of(path) {
        Some(ext) => {
            let lower = str_to_lowercase(ext.as_str());
            let lc = chars_of(lower.as_str());
            let mut dotted = String::new();
            push_char(&mut dotted, '.');
            let mut i: usize = 0;
            while i < lc.len()
                invariant
                    0 <= i <= lc.len(),
                    dotted@ == seq!['.'] + lc@.take(i as int),
                decreases lc.len() - i,
            {
                push_char(&mut dotted, lc[i]);
                assert(lc@.take(i + 1) == lc@.take(i as int).push(lc@[i as int]));
                i += 1;
            }
            assert(lc@.take(lc.len() as int) == lc@);
            Some(dotted)
        },
        None => None,
    }
}

/// The part of a media type before its first `/`.
pub fn media_top_level_of(media_type: &str) -> (r: String)
    ensures
        r@ == media_top_level(media_type@),
{
    let cs = chars_of(media_type);
    match find_char(&cs, '/') {
        Some(i) => string_from_range(&cs, 0, i),
        None => string_from_range(&cs, 0, cs.len()),
    }
}

impl Profile {
    pub fn new(
        name: String,
        categories: Option<Vec<FileCategory>>,
        mime_types: Option<Vec<String>>,
        extensions: Option<Vec<String>>,
        bg_color: u32,
        icon_source: IconSource,
    ) -> (r: Self)
        ensures
            r@ == (ProfileView {
                name: name@,
                categories: opt_seq(categories),
                mime_types: mime_types.deep_view(),
                extensions: extensions.deep_view(),
                bg_color,
                icon_source,
            }),
    {
        Profile { name, categories, mime_types, extensions, profile_style: ProfileStyle::new(bg_color, icon_source) }
    }

    pub fn name(&self) -> (r: &String)
        ensures
            r@ == self@.name,
    {
        &self.name
    }

    pub fn categories(&self) -> (r: &Option<Vec<FileCategory>>)
        ensures
            opt_seq(*r) == self@.categories,
    {
        &self.categories
    }

    pub fn mime_types(&self) -> (r: &Option<Vec<String>>)
        ensures
            r.deep_view() == self@.mime_types,
    {
        &self.mime_types
    }

    pub fn extensions(&self) -> (r: &Option<Vec<String>>)
        ensures
            r.deep_view() == self@.extensions,
    {
        &self.extensions
    }

    pub fn bg_color(&self) -> (r: u32)
        ensures
            r == self@.bg_color,
    {
        self.profile_style.bg_color()
    }

    pub fn icon_source(&self) -> (r: &IconSource)
        ensures
            *r == self@.icon_source,
    {
        self.profile_style.icon_source()
    }

    /// Whether the profile selects the file at `path`. The extension is checked
    /// first; `media_type` is the media type detected from the file's content,
    /// `None` when it could not be determined.
    pub fn matches(&self, path: &str, media_type: Option<&str>) -> (r: bool)
        ensures
            r == profile_matches(self@, path@, match media_type {
                Some(m) => Some(m@),
                None => None,
            }),
            (self@.extensions matches Some(es) && path_extension(path@) matches Some(e) && es.contains(
                seq!['.'] + unicode_lowercase(e),
            )) ==> r,
            (self@.mime_types matches Some(ms) && media_type matches Some(m) && ms.contains(m@)) ==> r,
            (self@.categories matches Some(cs) && media_type matches Some(m) && cs.contains(
                category_named(media_top_level(m@)),
            )) ==> r,
            r ==> ((self@.extensions matches Some(es) && path_extension(path@) matches Some(e) && es.contains(
                seq!['.'] + unicode_lowercase(e),
            )) || (self@.mime_types matches Some(ms) && media_type matches Some(m) && ms.contains(m@)) || (
            self@.categories matches Some(cs) && media_type matches Some(m) && cs.contains(
                category_named(media_top_level(m@)),
            ))),
    {
        if let Some(exts) = &self.extensions {
            if let Some(ext) = dotted_lowercase_extension(path) {
                if contains_string(exts.as_slice(), ext.as_str()) {
                    return true;
                }
            }
        }
        if let Some(mime) = media_type {
            if let Some(mimes) = &self.mime_types {
                if contains_string(mimes.as_slice(), mime) {
                    return true;
                }
            }
            let top = media_top_level_of(mime);
            let cat = FileCategory::from_name(top.as_str());
            if let Some(cats) = &self.categories {
                let mut i: usize = 0;
                while i < cats.len()
                    invariant
                        0 <= i <= cats.len(),
                        forall|j: int| 0 <= j < i ==> cats@[j] != cat,
                        self@.categories == Some(cats@),
                        cat == category_named(media_top_level(mime@)),
                        media_type == Some(mime),
                    decreases cats.len() - i,
                {
                    if cats[i] == cat {
                        assert(cats@.contains(cat));
                        return true;
                    }
                    i += 1;
                }
            }
        }
        false
    }
}

/// The part of a media type before its slash is its top level: for a type
/// written `t/rest` with no slash in `t`, the top level is `t`.
pub proof fn media_top_level_before_slash(t: Seq<char>, rest: Seq<char>)
    requires
        !t.contains('/'),
    ensures
        media_top_level(t + seq!['/'] + rest) == t,
{
    let m = t + seq!['/'] + rest;
    assert(m[t.len() as int] == '/');
    assert(m.contains('/'));
    let i = first_index(m, '/').unwrap();
    assert(0 <= i < m.len() && m[i] == '/' && forall|j: int| 0 <= j < i ==> m[j] != '/');
    if i < t.len() {
        assert(t[i] == m[i]);
        assert(t.contains('/'));
    }
    assert(i == t.len());
    assert(m.take(i) =~= t);
}

/// A profile selects every file whose detected media type falls in one of
/// its categories (the top level of the type names the category), whatever
/// the file's name and whether or not the exact type is listed.
pub proof fn category_selects(p: ProfileView, path: Seq<char>, m: Seq<char>)
    requires
        p.categories matches Some(cs) && cs.contains(category_named(media_top_level(m))),
    ensures
        profile_matches(p, path, Some(m)),
{
}

/// A profile selects every file whose detected media type it lists, and
/// every file whose lower-cased extension, with its dot, it lists.
pub proof fn listed_types_and_extensions_select(p: ProfileView, path: Seq<char>, m: Option<Seq<char>>)
    ensures
        (p.mime_types matches Some(ms) && m matches Some(t) && ms.contains(t)) ==> profile_matches(p, path, m),
        (p.extensions matches Some(es) && path_extension(path) matches Some(e) && es.contains(
            seq!['.'] + unicode_lowercase(e),
        )) ==> profile_matches(p, path, m),
{
}

/// The contents of a sequence of profiles.
pub open spec fn profile_views(ps: Seq<Profile>) -> Seq<ProfileView> {
    ps.map_values(|p: Profile| p@)
}

/// The profiles offered by default, in the order they are shown.
pub open spec fn default_profile_views() -> Seq<ProfileView> {
    seq![
        ProfileView {
            name: "Aplicaciones"@,
            categories: Some(seq![FileCategory::Application]),
            mime_types: Some(seq!["application/vnd.microsoft.portable-executable"@, "application/x-msdownload"@, "application/x-msi"@, "application/java-archive"@, "application/vnd.appimage"@, "application/x-executable"@, "application/vnd.debian.binary-package"@, "application/x-rpm"@, "application/x-apple-diskimage"@]),
            extensions: None,
            bg_color: 0xFF4CAF50,
            icon_source: IconSource::App,
        },
        ProfileView {
            name: "Audios"@,
            categories: Some(seq![FileCategory::Audio]),
            mime_types: Some(seq!["audio/mpeg"@, "audio/wav"@, "audio/flac"@, "audio/aac"@, "audio/ogg"@, "audio/mp4"@, "audio/x-m4a"@, "audio/x-ms-wma"@]),
            extensions: None,
            bg_color: 0xFF2196F3,
            icon_source: IconSource::Audio,
        },
        ProfileView {
            name: "Imágenes"@,
            categories: Some(seq![FileCategory::Image]),
            mime_types: Some(seq!["image/jpeg"@, "image/png"@, "image/gif"@, "image/bmp"@, "image/svg+xml"@, "image/webp"@, "image/tiff"@, "image/vnd.microsoft.icon"@]),
            extensions: None,
            bg_color: 0xFFFF9800,
            icon_source: IconSource::Image,
        },
        ProfileView {
            name: "Modelos"@,
            categories: Some(seq![FileCategory::Model]),
            mime_types: Some(seq!["model/obj"@, "model/stl"@, "model/gltf+json"@, "model/gltf-binary"@, "model/vnd.collada+xml"@, "application/x-3ds"@]),
            extensions: None,
            bg_color: 0xFF9C27B0,
            icon_source: IconSource::Model,
        },
        ProfileView {
            name: "Texto"@,
            categories: Some(seq![FileCategory::Text]),
            mime_types: Some(seq!["text/plain"@, "text/html"@, "text/css"@, "text/javascript"@, "application/json"@, "application/xml"@, "text/xml"@, "text/markdown"@, "application/rtf"@]),
            extensions: None,
            bg_color: 0xFF607D8B,
            icon_source: IconSource::Text,
        },
        ProfileView {
            name: "Vídeos"@,
            categories: Some(seq![FileCategory::Video]),
            mime_types: Some(seq!["video/mp4"@, "video/webm"@, "video/ogg"@, "video/x-msvideo"@, "video/quicktime"@, "video/x-matroska"@, "video/x-ms-wmv"@]),
            extensions: None,
            bg_color: 0xFFF44336,
            icon_source: IconSource::Video,
        },
        ProfileView {
            name: "Otros"@,
            categories: Some(seq![FileCategory::Other]),
            mime_types: None,
            extensions: None,
            bg_color: 0xFF9E9E9E,
            icon_source: IconSource::App,
        },
        ProfileView {
            name: "Comprimidos"@,
            categories: None,
            mime_types: Some(seq!["application/zip"@, "application/x-zip-compressed"@, "application/x-7z-compressed"@, "application/vnd.rar"@, "application/x-rar-compressed"@, "application/x-tar"@, "application/gzip"@, "application/x-bzip2"@]),
            extensions: Some(seq![".zip"@, ".rar"@, ".7z"@, ".tar"@, ".gz"@, ".tar.gz"@, ".bz2"@, ".tar.bz2"@]),
            bg_color: 0xFF795548,
            icon_source: IconSource::App,
        },
        ProfileView {
            name: "Documentos"@,
            categories: None,
            mime_types: Some(seq!["application/pdf"@, "application/msword"@, "application/vnd.openxmlformats-officedocument.wordprocessingml.document"@, "application/vnd.ms-excel"@, "application/vnd.openxmlformats-officedocument.spreadsheetml.sheet"@, "application/vnd.ms-powerpoint"@, "application/vnd.openxmlformats-officedocument.presentationml.presentation"@, "application/vnd.oasis.opendocument.text"@]),
            extensions: Some(seq![".pdf"@, ".doc"@, ".docx"@, ".xls"@, ".xlsx"@, ".ppt"@, ".pptx"@, ".odt"@]),
            bg_color: 0xFF3F51B5,
            icon_source: IconSource::Text,
        },
    ]
}

/// The profiles offered by default, in the order they are shown.
pub fn default_profiles() -> (r: Vec<Profile>)
    ensures
        profile_views(r@) == default_profile_views(),
{
    let mut v: Vec<Profile> = Vec::new();
    let c0: Vec<FileCategory> = vec![FileCategory::Application];
    assert(c0@ == seq![FileCategory::Application]);
    let m0 = owned_all(&["application/vnd.microsoft.portable-executable", "application/x-msdownload", "application/x-msi", "application/java-archive", "application/vnd.appimage", "application/x-executable", "application/vnd.debian.binary-package", "application/x-rpm", "application/x-apple-diskimage"]);
    assert(m0.deep_view() == seq!["application/vnd.microsoft.portable-executable"@, "application/x-msdownload"@, "application/x-msi"@, "application/java-archive"@, "application/vnd.appimage"@, "application/x-executable"@, "application/vnd.debian.binary-package"@, "application/x-rpm"@, "application/x-apple-diskimage"@]);
    let p0 = Profile::new(owned("Aplicaciones"), Some(c0), Some(m0), None, 0xFF4CAF50, IconSource::App);
    assert(p0@ == default_profile_views()[0]);
    v.push(p0);
    let c1: Vec<FileCategory> = vec![FileCategory::Audio];
    assert(c1@ == seq![FileCategory::Audio]);
    let m1 = owned_all(&["audio/mpeg", "audio/wav", "audio/flac", "audio/aac", "audio/ogg", "audio/mp4", "audio/x-m4a", "audio/x-ms-wma"]);
    assert(m1.deep_view() == seq!["audio/mpeg"@, "audio/wav"@, "audio/flac"@, "audio/aac"@, "audio/ogg"@, "audio/mp4"@, "audio/x-m4a"@, "audio/x-ms-wma"@]);
    let p1 = Profile::new(owned("Audios"), Some(c1), Some(m1), None, 0xFF2196F3, IconSource::Audio);
    assert(p1@ == default_profile_views()[1]);
    v.push(p1);
    let c2: Vec<FileCategory> = vec![FileCategory::Image];
    assert(c2@ == seq![FileCategory::Image]);
    let m2 = owned_all(&["image/jpeg", "image/png", "image/gif", "image/bmp", "image/svg+xml", "image/webp", "image/tiff", "image/vnd.microsoft.icon"]);
    assert(m2.deep_view() == seq!["image/jpeg"@, "image/png"@, "image/gif"@, "image/bmp"@, "image/svg+xml"@, "image/webp"@, "image/tiff"@, "image/vnd.microsoft.icon"@]);
    let p2 = Profile::new(owned("Imágenes"), Some(c2), Some(m2), None, 0xFFFF9800, IconSource::Image);
    assert(p2@ == default_profile_views()[2]);
    v.push(p2);
    let c3: Vec<FileCategory> = vec![FileCategory::Model];
    assert(c3@ == seq![FileCategory::Model]);
    let m3 = owned_all(&["model/obj", "model/stl", "model/gltf+json", "model/gltf-binary", "model/vnd.collada+xml", "application/x-3ds"]);
    assert(m3.deep_view() == seq!["model/obj"@, "model/stl"@, "model/gltf+json"@, "model/gltf-binary"@, "model/vnd.collada+xml"@, "application/x-3ds"@]);
    let p3 = Profile::new(owned("Modelos"), Some(c3), Some(m3), None, 0xFF9C27B0, IconSource::Model);
    assert(p3@ == default_profile_views()[3]);
    v.push(p3);
    let c4: Vec<FileCategory> = vec![FileCategory::Text];
    assert(c4@ == seq![FileCategory::Text]);
    let m4 = owned_all(&["text/plain", "text/html", "text/css", "text/javascript", "application/json", "application/xml", "text/xml", "text/markdown", "application/rtf"]);
    assert(m4.deep_view() == seq!["text/plain"@, "text/html"@, "text/css"@, "text/javascript"@, "application/json"@, "application/xml"@, "text/xml"@, "text/markdown"@, "application/rtf"@]);
    let p4 = Profile::new(owned("Texto"), Some(c4), Some(m4), None, 0xFF607D8B, IconSource::Text);
    assert(p4@ == default_profile_views()[4]);
    v.push(p4);
    let c5: Vec<FileCategory> = vec![FileCategory::Video];
    assert(c5@ == seq![FileCategory::Video]);
    let m5 = owned_all(&["video/mp4", "video/webm", "video/ogg", "video/x-msvideo", "video/quicktime", "video/x-matroska", "video/x-ms-wmv"]);
    assert(m5.deep_view() == seq!["video/mp4"@, "video/webm"@, "video/ogg"@, "video/x-msvideo"@, "video/quicktime"@, "video/x-matroska"@, "video/x-ms-wmv"@]);
    let p5 = Profile::new(owned("Vídeos"), Some(c5), Some(m5), None, 0xFFF44336, IconSource::Video);
    assert(p5@ == default_profile_views()[5]);
    v.push(p5);
    let c6: Vec<FileCategory> = vec![FileCategory::Other];
    assert(c6@ == seq![FileCategory::Other]);
    let p6 = Profile::new(owned("Otros"), Some(c6), None, None, 0xFF9E9E9E, IconSource::App);
    assert(p6@ == default_profile_views()[6]);
    v.push(p6);
    let m7 = owned_all(&["application/zip", "application/x-zip-compressed", "application/x-7z-compressed", "application/vnd.rar", "application/x-rar-compressed", "application/x-tar", "application/gzip", "application/x-bzip2"]);
    assert(m7.deep_view() == seq!["application/zip"@, "application/x-zip-compressed"@, "application/x-7z-compressed"@, "application/vnd.rar"@, "application/x-rar-compressed"@, "application/x-tar"@, "application/gzip"@, "application/x-bzip2"@]);
    let e7 = owned_all(&[".zip", ".rar", ".7z", ".tar", ".gz", ".tar.gz", ".bz2", ".tar.bz2"]);
    assert(e7.deep_view() == seq![".zip"@, ".rar"@, ".7z"@, ".tar"@, ".gz"@, ".tar.gz"@, ".bz2"@, ".tar.bz2"@]);
    let p7 = Profile::new(owned("Comprimidos"), None, Some(m7), Some(e7), 0xFF795548, IconSource::App);
    assert(p7@ == default_profile_views()[7]);
    v.push(p7);
    let m8 = owned_all(&["application/pdf", "application/msword", "application/vnd.openxmlformats-officedocument.wordprocessingml.document", "application/vnd.ms-excel", "application/vnd.openxmlformats-officedocument.spreadsheetml.sheet", "application/vnd.ms-powerpoint", "application/vnd.openxmlformats-officedocument.presentationml.presentation", "application/vnd.oasis.opendocument.text"]);
    assert(m8.deep_view() == seq!["application/pdf"@, "application/msword"@, "application/vnd.openxmlformats-officedocument.wordprocessingml.document"@, "application/vnd.ms-excel"@, "application/vnd.openxmlformats-officedocument.spreadsheetml.sheet"@, "application/vnd.ms-powerpoint"@, "application/vnd.openxmlformats-officedocument.presentationml.presentation"@, "application/vnd.oasis.opendocument.text"@]);
    let e8 = owned_all(&[".pdf", ".doc", ".docx", ".xls", ".xlsx", ".ppt", ".pptx", ".odt"]);
    assert(e8.deep_view() == seq![".pdf"@, ".doc"@, ".docx"@, ".xls"@, ".xlsx"@, ".ppt"@, ".pptx"@, ".odt"@]);
    let p8 = Profile::new(owned("Documentos"), None, Some(m8), Some(e8), 0xFF3F51B5, IconSource::Text);
    assert(p8@ == default_profile_views()[8]);
    v.push(p8);
    assert(profile_views(v@) =~= default_profile_views());
    v
}

} // verus!
