use crate::profiling::profile::{
    category_named, dotted_lowercase_extension, matches_extension, matches_media_type, media_top_level,
    media_top_level_of,
};
use crate::text::{contains_string, opt_seq, owned, owned_all, str_equal};
use vstd::prelude::*;

verus! {

/// The top-level kind of a media type (`application/...`, `audio/...`, ...).
#[derive(Debug, Clone, Copy, PartialEq, Eq, Structural)]
pub enum FileCategory {
    Application,
    Audio,
    Image,
    Model,
    Text,
    Video,
    Other,
}

/// The category named by the top-level part of a media type.
pub open spec fn file_category_named(s: Seq<char>) -> FileCategory {
    if s == "application"@ {
        FileCategory::Application
    } else if s == "audio"@ {
        FileCategory::Audio
    } else if s == "image"@ {
        FileCategory::Image
    } else if s == "model"@ {
        FileCategory::Model
    } else if s == "text"@ {
        FileCategory::Text
    } else if s == "video"@ {
        FileCategory::Video
    } else {
        FileCategory::Other
    }
}

impl FileCategory {
    /// The category named by the top-level part of a media type.
    pub fn from_name(mime_type: &str) -> (r: FileCategory)
        ensures
            r == file_category_named(mime_type@),
    {
        if str_equal(mime_type, "application") {
            FileCategory::Application
        } else if str_equal(mime_type, "audio") {
            FileCategory::Audio
        } else if str_equal(mime_type, "image") {
            FileCategory::Image
        } else if str_equal(mime_type, "model") {
            FileCategory::Model
        } else if str_equal(mime_type, "text") {
            FileCategory::Text
        } else if str_equal(mime_type, "video") {
            FileCategory::Video
        } else {
            FileCategory::Other
        }
    }
}

impl From<String> for FileCategory {
    fn from(mime_type: String) -> (r: FileCategory) {
        FileCategory::from_name(mime_type.as_str())
    }
}

impl vstd::std_specs::convert::FromSpecImpl<String> for FileCategory {
    open spec fn obeys_from_spec() -> bool {
        true
    }

    open spec fn from_spec(mime_type: String) -> FileCategory {
        file_category_named(mime_type@)
    }
}

/// A set of criteria that selects files: categories of media type, exact media
/// types and file extensions.
#[derive(Debug, Clone)]
pub struct Profile {
    name: String,
    categories: Option<Vec<FileCategory>>,
    mime_types: Option<Vec<String>>,
    extensions: Option<Vec<String>>,
}

/// The contents of a [`Profile`].
pub ghost struct ProfileView {
    pub name: Seq<char>,
    pub categories: Option<Seq<FileCategory>>,
    pub mime_types: Option<Seq<Seq<char>>>,
    pub extensions: Option<Seq<Seq<char>>>,
}

impl View for Profile {
    type V = ProfileView;

    closed spec fn view(&self) -> ProfileView {
        ProfileView {
            name: self.name@,
            categories: opt_seq(self.categories),
            mime_types: self.mime_types.deep_view(),
            extensions: self.extensions.deep_view(),
        }
    }
}

/// A profile selects the file at `path`, whose content has the media type
/// `media_type` when it could be determined.
pub open spec fn profile_selects(p: ProfileView, path: Seq<char>, media_type: Option<Seq<char>>) -> bool {
    ||| matches_extension(p.extensions, path)
    ||| (media_type is Some && (
        (p.mime_types is Some && p.mime_types.unwrap().contains(media_type.unwrap()))
        || (p.categories is Some && p.categories.unwrap().contains(
            file_category_named(media_top_level(media_type.unwrap())),
        ))))
}

impl Profile {
    pub fn new(
        name: String,
        categories: Option<Vec<FileCategory>>,
        mime_types: Option<Vec<String>>,
        extensions: Option<Vec<String>>,
    ) -> (r: Self)
        ensures
            r@ == (ProfileView {
                name: name@,
                categories: opt_seq(categories),
                mime_types: mime_types.deep_view(),
                extensions: extensions.deep_view(),
            }),
    {
        Profile { name, categories, mime_types, extensions }
    }

    pub fn name(&self) -> (r: &String)
        ensures
            r@ == self@.name,
    {
        &self.name
    }

    pub fn categories(&self) -> (r: &Option<Vec<FileCategory>>)
        ensures
            opt_seq(*r) == self@.categories,
    {
        &self.categories
    }

    pub fn mime_types(&self) -> (r: &Option<Vec<String>>)
        ensures
            r.deep_view() == self@.mime_types,
    {
        &self.mime_types
    }

    pub fn extensions(&self) -> (r: &Option<Vec<String>>)
        ensures
            r.deep_view() == self@.extensions,
    {
        &self.extensions
    }

    /// Whether the profile selects the file at `path`. The extension is checked
    /// first; `media_type` is the media type guessed from the file's content,
    /// `None` when it could not be guessed.
    pub fn matches(&self, path: &str, media_type: Option<&str>) -> (r: bool)
        ensures
            r == profile_selects(self@, path@, match media_type {
                Some(m) => Some(m@),
                None => None,
            }),
    {
        if let Some(exts) = &self.extensions {
            if let Some(ext) = dotted_lowercase_extension(path) {
                if contains_string(exts.as_slice(), ext.as_str()) {
                    return true;
                }
            }
        }
        if let Some(mime) = media_type {
            if let Some(mimes) = &self.mime_types {
                if contains_string(mimes.as_slice(), mime) {
                    return true;
                }
            }
            let top = media_top_level_of(mime);
            let cat = FileCategory::from_name(top.as_str());
            if let Some(cats) = &self.categories {
                let mut i: usize = 0;
                while i < cats.len()
                    invariant
                        0 <= i <= cats.len(),
                        forall|j: int| 0 <= j < i ==> cats@[j] != cat,
                        self@.categories == Some(cats@),
                        cat == file_category_named(media_top_level(mime@)),
                        media_type == Some(mime),
                    decreases cats.len() - i,
                {
                    if cats[i] == cat {
                        assert(cats@.contains(cat));
                        return true;
                    }
                    i += 1;
                }
            }
        }
        false
    }
}

/// A profile selects every file whose detected media type falls in one of
/// its categories, and every file whose media type it lists, whatever the
/// file's name.
pub proof fn media_selects(p: ProfileView, path: Seq<char>, m: Seq<char>)
    ensures
        (p.categories matches Some(cs) && cs.contains(file_category_named(media_top_level(m))))
            ==> profile_selects(p, path, Some(m)),
        (p.mime_types matches Some(ms) && ms.contains(m)) ==> profile_selects(p, path, Some(m)),
{
}

/// The contents of a sequence of profiles.
pub open spec fn profile_views(ps: Seq<Profile>) -> Seq<ProfileView> {
    ps.map_values(|p: Profile| p@)
}

/// The profiles offered by default, in the order they are shown.
pub open spec fn default_profile_views() -> Seq<ProfileView> {
    seq![
        ProfileView {
            name: "Aplicaciones"@,
            categories: Some(seq![FileCategory::Application]),
            mime_types: None,
            extensions: None,
        },
        ProfileView {
            name: "Audios"@,
            categories: Some(seq![FileCategory::Audio]),
            mime_types: None,
            extensions: None,
        },
        ProfileView {
            name: "Imágenes"@,
            categories: Some(seq![FileCategory::Image]),
            mime_types: None,
            extensions: None,
        },
        ProfileView {
            name: "Modelos"@,
            categories: Some(seq![FileCategory::Model]),
            mime_types: None,
            extensions: None,
        },
        ProfileView {
            name: "Texto"@,
            categories: Some(seq![FileCategory::Text]),
            mime_types: None,
            extensions: None,
        },
        ProfileView {
            name: "Vídeos"@,
            categories: Some(seq![FileCategory::Video]),
            mime_types: None,
            extensions: None,
        },
        ProfileView {
            name: "Otros"@,
            categories: Some(seq![FileCategory::Other]),
            mime_types: None,
            extensions: None,
        },
        ProfileView {
            name: "Archivos comprimidos"@,
            categories: None,
            mime_types: Some(seq!["application/zip"@, "application/x-zip-compressed"@, "application/x-zip"@, "application/x-compress"@, "application/x-compressed"@, "application/gzip"@, "application/x-gzip"@, "application/x-tar"@, "application/x-bzip2"@, "application/x-bzip"@]),
            extensions: Some(seq![".zip"@, ".tar.gz"@, ".tar.bz2"@]),
        },
        ProfileView {
            name: "Documentos"@,
            categories: None,
            mime_types: Some(seq!["application/pdf"@, "application/msword"@, "application/vnd.openxmlformats-officedocument.wordprocessingml.document"@, "application/vnd.ms-excel"@, "application/vnd.openxmlformats-officedocument.spreadsheetml.sheet"@, "application/vnd.ms-powerpoint"@, "application/vnd.openxmlformats-officedocument.presentationml.presentation"@]),
            extensions: Some(seq![".pdf"@, ".doc"@, ".docx"@, ".xls"@, ".xlsx"@, ".ppt"@, ".pptx"@]),
        },
    ]
}

/// The profiles offered by default, in the order they are shown.
pub fn default_profiles() -> (r: Vec<Profile>)
    ensures
        profile_views(r@) == default_profile_views(),
{
    let mut v: Vec<Profile> = Vec::new();
    let c0: Vec<FileCategory> = vec![FileCategory::Application];
    assert(c0@ == seq![FileCategory::Application]);
    let p0 = Profile::new(owned("Aplicaciones"), Some(c0), None, None);
    assert(p0@ == default_profile_views()[0]);
    v.push(p0);
    let c1: Vec<FileCategory> = vec![FileCategory::Audio];
    assert(c1@ == seq![FileCategory::Audio]);
    let p1 = Profile::new(owned("Audios"), Some(c1), None, None);
    assert(p1@ == default_profile_views()[1]);
    v.push(p1);
    let c2: Vec<FileCategory> = vec![FileCategory::Image];
    assert(c2@ == seq![FileCategory::Image]);
    let p2 = Profile::new(owned("Imágenes"), Some(c2), None, None);
    assert(p2@ == default_profile_views()[2]);
    v.push(p2);
    let c3: Vec<FileCategory> = vec![FileCategory::Model];
    assert(c3@ == seq![FileCategory::Model]);
    let p3 = Profile::new(owned("Modelos"), Some(c3), None, None);
    assert(p3@ == default_profile_views()[3]);
    v.push(p3);
    let c4: Vec<FileCategory> = vec![FileCategory::Text];
    assert(c4@ == seq![FileCategory::Text]);
    let p4 = Profile::new(owned("Texto"), Some(c4), None, None);
    assert(p4@ == default_profile_views()[4]);
    v.push(p4);
    let c5: Vec<FileCategory> = vec![FileCategory::Video];
    assert(c5@ == seq![FileCategory::Video]);
    let p5 = Profile::new(owned("Vídeos"), Some(c5), None, None);
    assert(p5@ == default_profile_views()[5]);
    v.push(p5);
    let c6: Vec<FileCategory> = vec![FileCategory::Other];
    assert(c6@ == seq![FileCategory::Other]);
    let p6 = Profile::new(owned("Otros"), Some(c6), None, None);
    assert(p6@ == default_profile_views()[6]);
    v.push(p6);
    let m7 = owned_all(&["application/zip", "application/x-zip-compressed", "application/x-zip", "application/x-compress", "application/x-compressed", "application/gzip", "application/x-gzip", "application/x-tar", "application/x-bzip2", "application/x-bzip"]);
    assert(m7.deep_view() == seq!["application/zip"@, "application/x-zip-compressed"@, "application/x-zip"@, "application/x-compress"@, "application/x-compressed"@, "application/gzip"@, "application/x-gzip"@, "application/x-tar"@, "application/x-bzip2"@, "application/x-bzip"@]);
    let e7 = owned_all(&[".zip", ".tar.gz", ".tar.bz2"]);
    assert(e7.deep_view() == seq![".zip"@, ".tar.gz"@, ".tar.bz2"@]);
    let p7 = Profile::new(owned("Archivos comprimidos"), None, Some(m7), Some(e7));
    assert(p7@ == default_profile_views()[7]);
    v.push(p7);
    let m8 = owned_all(&["application/pdf", "application/msword", "application/vnd.openxmlformats-officedocument.wordprocessingml.document", "application/vnd.ms-excel", "application/vnd.openxmlformats-officedocument.spreadsheetml.sheet", "application/vnd.ms-powerpoint", "application/vnd.openxmlformats-officedocument.presentationml.presentation"]);
    assert(m8.deep_view() == seq!["application/pdf"@, "application/msword"@, "application/vnd.openxmlformats-officedocument.wordprocessingml.document"@, "application/vnd.ms-excel"@, "application/vnd.openxmlformats-officedocument.spreadsheetml.sheet"@, "application/vnd.ms-powerpoint"@, "application/vnd.openxmlformats-officedocument.presentationml.presentation"@]);
    let e8 = owned_all(&[".pdf", ".doc", ".docx", ".xls", ".xlsx", ".ppt", ".pptx"]);
    assert(e8.deep_view() == seq![".pdf"@, ".doc"@, ".docx"@, ".xls"@, ".xlsx"@, ".ppt"@, ".pptx"@]);
    let p8 = Profile::new(owned("Documentos"), None, Some(m8), Some(e8));
    assert(p8@ == default_profile_views()[8]);
    v.push(p8);
    assert(profile_views(v@) =~= default_profile_views());
    v
}

} // verus!
