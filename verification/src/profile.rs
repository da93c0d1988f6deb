//! The profile record: the subset of the user-profile API's JSON fields that
//! the command consumes.

use vstd::prelude::*;

verus! {

/// Mathematical model of a profile record: each text field as a sequence of
/// characters, each optional field as an `Option`.
pub ghost struct ProfileSpec {
    pub login: Seq<char>,
    pub id: u64,
    pub avatar_url: Seq<char>,
    pub html_url: Seq<char>,
    pub name: Option<Seq<char>>,
    pub company: Option<Seq<char>>,
    pub blog: Option<Seq<char>>,
    pub location: Option<Seq<char>>,
    pub bio: Option<Seq<char>>,
    pub public_repos: u32,
    pub followers: u32,
    pub following: u32,
}

/// One user profile, as parsed from the API's JSON response. The record is
/// transient: built from one response body and discarded after rendering.
pub struct GitHubUser {
    pub login: String,
    pub id: u64,
    pub avatar_url: String,
    pub html_url: String,
    pub name: Option<String>,
    pub company: Option<String>,
    pub blog: Option<String>,
    pub location: Option<String>,
    pub bio: Option<String>,
    pub public_repos: u32,
    pub followers: u32,
    pub following: u32,
}

pub open spec fn opt_view(o: Option<String>) -> Option<Seq<char>> {
    match o {
        Some(s) => Some(s@),
        None => None,
    }
}

impl View for GitHubUser {
    type V = ProfileSpec;

    open spec fn view(&self) -> ProfileSpec {
        ProfileSpec {
            login: self.login@,
            id: self.id,
            avatar_url: self.avatar_url@,
            html_url: self.html_url@,
            name: opt_view(self.name),
            company: opt_view(self.company),
            blog: opt_view(self.blog),
            location: opt_view(self.location),
            bio: opt_view(self.bio),
            public_repos: self.public_repos,
            followers: self.followers,
            following: self.following,
        }
    }
}

} // verus!
