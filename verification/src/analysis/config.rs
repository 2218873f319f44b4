//! What an analysis looks for and where.
use crate::profiling::profile::{profile_views, Profile, ProfileView};
use crate::text::strings_view;
use vstd::prelude::*;

verus! {

/// The profiles to match files against and the folders to walk.
pub struct Config {
    analysis_profile: Vec<Profile>,
    paths: Vec<String>,
}

/// The contents of a [`Config`].
pub ghost struct ConfigView {
    pub profiles: Seq<ProfileView>,
    pub paths: Seq<Seq<char>>,
}

impl View for Config {
    type V = ConfigView;

    closed spec fn view(&self) -> ConfigView {
        ConfigView { profiles: profile_views(self.analysis_profile@), paths: strings_view(self.paths@) }
    }
}

/// Copies of profiles, in order.
pub fn clone_profiles(ps: &[Profile]) -> (r: Vec<Profile>)
    ensures
        profile_views(r@) == profile_views(ps@),
{
    let mut r: Vec<Profile> = Vec::new();
    let mut i: usize = 0;
    while i < ps.len()
        invariant
            0 <= i <= ps.len(),
            profile_views(r@) == profile_views(ps@.take(i as int)),
        decreases ps.len() - i,
    {
        let p = ps[i].clone();
        let ghost before = r@;
        r.push(p);
        assert(profile_views(r@) =~= profile_views(before).push(ps@[i as int]@));
        assert(profile_views(ps@.take(i + 1)) =~= profile_views(ps@.take(i as int)).push(ps@[i as int]@));
        i += 1;
    }
    assert(ps@.take(ps.len() as int) == ps@);
    r
}

impl Default for Config {
    fn default() -> (r: Self)
        ensures
            r@ == (ConfigView { profiles: Seq::empty(), paths: Seq::empty() }),
    {
        let r = Config { analysis_profile: Vec::new(), paths: Vec::new() };
        assert(r@.profiles =~= Seq::<ProfileView>::empty());
        assert(r@.paths =~= Seq::<Seq<char>>::empty());
        r
    }
}

impl Clone for Config {
    fn clone(&self) -> (r: Self)
        ensures
            r@ == self@,
    {
        let paths = crate::text::clone_strings(&self.paths);
        Config { analysis_profile: clone_profiles(self.analysis_profile.as_slice()), paths }
    }
}

impl Config {
    pub fn new(profiles: Vec<Profile>, paths: Vec<String>) -> (r: Config)
        ensures
            r@ == (ConfigView { profiles: profile_views(profiles@), paths: strings_view(paths@) }),
    {
        Self { analysis_profile: profiles, paths }
    }

    pub fn analysis_profile(&self) -> (r: &Vec<Profile>)
        ensures
            profile_views(r@) == self@.profiles,
    {
        &self.analysis_profile
    }

    pub fn paths(&self) -> (r: &Vec<String>)
        ensures
            strings_view(r@) == self@.paths,
    {
        &self.paths
    }
}

} // verus!
