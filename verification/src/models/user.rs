//! Users.
use vstd::prelude::*;

verus! {

/// A user as collected or stored. Image addresses are URLs in normal form.
#[derive(Debug, PartialEq, Eq)]
pub struct User {
    pub id: i64,
    pub screen_name: String,
    pub domain: String,
    pub avatar_hd: String,
    pub avatar_large: String,
    pub profile_image_url: String,
    pub following: bool,
    pub follow_me: bool,
}

impl Clone for User {
    fn clone(&self) -> (r: Self)
        ensures
            r == *self,
    {
        User {
            id: self.id,
            screen_name: self.screen_name.clone(),
            domain: self.domain.clone(),
            avatar_hd: self.avatar_hd.clone(),
            avatar_large: self.avatar_large.clone(),
            profile_image_url: self.profile_image_url.clone(),
            following: self.following,
            follow_me: self.follow_me,
        }
    }
}

} // verus!
