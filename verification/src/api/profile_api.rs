//! The profiles offered to the user.
use crate::analysis::config::clone_profiles;
use crate::profiling::profile::{default_profile_views, default_profiles, profile_views, Profile, ProfileView};
use crate::text::str_equal;
use vstd::prelude::*;

verus! {

/// The profiles offered, initially the built-in ones.
pub struct ProfileAPI {
    profiles: Vec<Profile>,
}

impl View for ProfileAPI {
    type V = Seq<ProfileView>;

    closed spec fn view(&self) -> Seq<ProfileView> {
        profile_views(self.profiles@)
    }
}

/// The first profile named `label`, if any.
pub open spec fn profile_labelled(ps: Seq<ProfileView>, label: Seq<char>) -> Option<ProfileView>
    decreases ps.len(),
{
    if ps.len() == 0 {
        None
    } else if ps[0].name == label {
        Some(ps[0])
    } else {
        profile_labelled(ps.drop_first(), label)
    }
}

impl Default for ProfileAPI {
    fn default() -> (r: Self)
        ensures
            r@ == default_profile_views(),
    {
        Self::new()
    }
}

impl ProfileAPI {
    /// The built-in profiles.
    pub fn new() -> (r: ProfileAPI)
        ensures
            r@ == default_profile_views(),
    {
        ProfileAPI { profiles: default_profiles() }
    }

    /// Goes back to the built-in profiles.
    pub fn load_default_profiles(&mut self)
        ensures
            final(self)@ == default_profile_views(),
    {
        self.profiles = default_profiles();
    }

    /// Copies of the profiles, in order.
    pub fn get_profiles(&self) -> (r: Vec<Profile>)
        ensures
            profile_views(r@) == self@,
    {
        clone_profiles(self.profiles.as_slice())
    }

    /// A copy of the first profile named `label`, if any.
    pub fn get_by_label(&self, label: String) -> (r: Option<Profile>)
        ensures
            match r {
                Some(p) => profile_labelled(self@, label@) == Some(p@),
                None => profile_labelled(self@, label@) is None,
            },
    {
        let ghost ps = self@;
        assert(ps.skip(0) == ps);
        let mut i: usize = 0;
        while i < self.profiles.len()
            invariant
                0 <= i <= self.profiles.len(),
                ps == self@,
                ps.len() == self.profiles.len(),
                profile_labelled(ps, label@) == profile_labelled(ps.skip(i as int), label@),
            decreases self.profiles.len() - i,
        {
            let ghost rest = ps.skip(i as int);
            assert(rest[0] == self.profiles@[i as int]@);
            assert(rest.drop_first() == ps.skip(i + 1));
            if str_equal(self.profiles[i].name().as_str(), label.as_str()) {
                return Some(self.profiles[i].clone());
            }
            i += 1;
        }
        None
    }
}

} // verus!
