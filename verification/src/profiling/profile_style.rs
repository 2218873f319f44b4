use crate::text::owned;
use vstd::prelude::*;

verus! {

/// The icon shown for a profile.
#[derive(Clone, Copy, Debug, PartialEq, Eq, Structural)]
pub enum IconSource {
    App,
    Audio,
    Image,
    Model,
    Text,
    Video,
}

/// The asset path of each icon.
pub open spec fn icon_path(i: IconSource) -> Seq<char> {
    match i {
        IconSource::App => "assets/profile_icons/app.svg"@,
        IconSource::Audio => "assets/profile_icons/audio.svg"@,
        IconSource::Image => "assets/profile_icons/image.svg"@,
        IconSource::Model => "assets/profile_icons/model.svg"@,
        IconSource::Text => "assets/profile_icons/text.svg"@,
        IconSource::Video => "assets/profile_icons/video.svg"@,
    }
}

impl IconSource {
    /// The asset path of this icon.
    pub fn to_string(&self) -> (r: String)
        ensures
            r@ == icon_path(*self),
    {
        match self {
            IconSource::App => owned("assets/profile_icons/app.svg"),
            IconSource::Audio => owned("assets/profile_icons/audio.svg"),
            IconSource::Image => owned("assets/profile_icons/image.svg"),
            IconSource::Model => owned("assets/profile_icons/model.svg"),
            IconSource::Text => owned("assets/profile_icons/text.svg"),
            IconSource::Video => owned("assets/profile_icons/video.svg"),
        }
    }
}

/// How a profile is shown: an ARGB background colour and an icon.
#[derive(Clone, Copy, Debug)]
pub struct ProfileStyle {
    bg_color: u32,
    icon_source: IconSource,
}

impl ProfileStyle {
    pub closed spec fn spec_bg_color(self) -> u32 {
        self.bg_color
    }

    pub closed spec fn spec_icon_source(self) -> IconSource {
        self.icon_source
    }

    pub fn new(bg_color: u32, icon_source: IconSource) -> (r: Self)
        ensures
            r.spec_bg_color() == bg_color,
            r.spec_icon_source() == icon_source,
    {
        Self { bg_color, icon_source }
    }

    pub fn bg_color(&self) -> (r: u32)
        ensures
            r == self.spec_bg_color(),
    {
        self.bg_color
    }

    pub fn icon_source(&self) -> (r: &IconSource)
        ensures
            *r == self.spec_icon_source(),
    {
        &self.icon_source
    }
}

} // verus!
