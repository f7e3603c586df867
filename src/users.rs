//! Requests for users: searches, one user by id, and what belongs to a user.
use vstd::prelude::*;

use crate::client::Client;
use crate::collections::{Followers, Followings, Likes, Playlists, StreamingApi, Tracks, WebProfiles};
use crate::error::Error;
use crate::link::{opt_pair, pairs_view, path_segments, push_opt, url_parses, url_path_segments};
use crate::page::opt_view;
use crate::text::{decimal, id_path, parse_decimal, parse_decimal_spec};

verus! {

/// The site that a permalink names a page of.
pub const PERMALINK_BASE: &'static str = "https://soundcloud.com/";

/// The id that a resolved resource URL names: the number written by the last
/// segment of its path.
pub open spec fn resolved_id(url: Seq<char>) -> Option<usize> {
    if url_parses(url) {
        match url_path_segments(url) {
            Some(segments) => if segments.len() > 0 {
                parse_decimal_spec(segments.last())
            } else {
                None
            },
            None => None,
        }
    } else {
        None
    }
}

/// A search for users.
#[derive(Debug)]
pub struct UserRequestBuilder<'a> {
    client: &'a Client,
    query: Option<String>,
}

/// A request for one user.
#[derive(Debug)]
pub struct SingleUserRequestBuilder<'a> {
    client: &'a Client,
    pub id: usize,
}

impl<'a> UserRequestBuilder<'a> {
    /// The client that the request is made with.
    pub closed spec fn client_spec(&self) -> Client {
        *self.client
    }

    /// The search text, where one was given.
    pub closed spec fn query_spec(&self) -> Option<Seq<char>> {
        opt_view(self.query)
    }

    /// A search with no criteria set.
    pub fn new(client: &'a Client) -> (r: UserRequestBuilder<'a>)
        ensures
            r.client_spec() == *client,
            r.query_spec() is None,
    {
        UserRequestBuilder { client, query: None }
    }

    /// The client that the search is made with.
    pub fn client(&self) -> (r: &'a Client)
        ensures
            *r == self.client_spec(),
    {
        self.client
    }

    /// Returns only users that match the search text.
    pub fn query(&mut self, query: Option<&str>) -> (r: &mut Self)
        ensures
            r.query_spec() == match query { Some(t) => Some(t@), None => None::<Seq<char>> },
            r.client_spec() == old(self).client_spec(),
            *final(self) == *final(r),
    {
        self.query = match query {
            Some(t) => Some(t.to_owned()),
            None => None,
        };
        self
    }

    /// A request for the one user `id`.
    pub fn id(&self, id: usize) -> (r: SingleUserRequestBuilder<'a>)
        ensures
            r.client_spec() == self.client_spec(),
            r.id_spec() == id,
    {
        SingleUserRequestBuilder { client: self.client, id }
    }

    /// The page of the user with this permalink, to be resolved.
    pub fn permalink_url(permalink: &str) -> (r: String)
        ensures
            r@ == PERMALINK_BASE@ + permalink@,
    {
        PERMALINK_BASE.to_owned().concat(permalink)
    }

    /// A request for the user that a resolved resource URL names.
    pub fn resolved(&self, resource_url: &str) -> (r: Result<SingleUserRequestBuilder<'a>, Error>)
        ensures
            !url_parses(resource_url@) ==> r matches Err(Error::InvalidUrl),
            url_parses(resource_url@) && resolved_id(resource_url@) is None ==> r matches Err(Error::ApiError(_)),
            resolved_id(resource_url@) matches Some(id) ==> (r matches Ok(b) && b.id_spec() == id
                && b.client_spec() == self.client_spec()),
    {
        let segments = path_segments(resource_url)?;
        let id = match segments {
            Some(v) => {
                if v.len() == 0 {
                    None
                } else {
                    parse_decimal(v[v.len() - 1].as_str())
                }
            },
            None => None,
        };
        match id {
            Some(id) => Ok(SingleUserRequestBuilder { client: self.client, id }),
            None => Err(Error::ApiError("the resolved URL does not name a user id".to_owned())),
        }
    }

    /// The query parameters of the search.
    pub fn request_params(&self) -> (r: Vec<(String, String)>)
        ensures
            pairs_view(r@) == opt_pair("q"@, self.query_spec()),
    {
        let mut result: Vec<(String, String)> = Vec::new();
        proof {
            assert(pairs_view(result@) =~= Seq::<(Seq<char>, Seq<char>)>::empty());
        }
        push_opt(&mut result, "q", &self.query);
        proof {
            assert(pairs_view(result@) =~= opt_pair("q"@, self.query_spec()));
        }
        result
    }
}

impl<'a> SingleUserRequestBuilder<'a> {
    /// The client that the request is made with.
    pub closed spec fn client_spec(&self) -> Client {
        *self.client
    }

    /// The id of the requested resource.
    pub closed spec fn id_spec(&self) -> usize {
        self.id
    }

    /// A request for the user `id`.
    pub fn new(client: &'a Client, id: usize) -> (r: SingleUserRequestBuilder<'a>)
        ensures
            r.client_spec() == *client,
            r.id_spec() == id,
    {
        SingleUserRequestBuilder { client, id }
    }

    /// The client that the request is made with.
    pub fn client(&self) -> (r: &'a Client)
        ensures
            *r == self.client_spec(),
    {
        self.client
    }

    /// The tracks this user uploaded.
    pub fn tracks(&self) -> (r: Tracks)
        ensures
            r.client_spec() == self.client_spec(),
            r.path_spec() == "/users/"@ + decimal(self.id_spec() as nat) + "/tracks"@,
    {
        Tracks::new(self.client.clone(), self.id)
    }

    /// The tracks this user likes.
    pub fn likes(&mut self) -> (r: Likes)
        ensures
            r.client_spec() == old(self).client_spec(),
            r.path_spec() == "/users/"@ + decimal(old(self).id_spec() as nat) + "/favorites"@,
            *final(self) == *old(self),
    {
        Likes::new(self.client.clone(), self.id)
    }

    /// The playlists this user made.
    pub fn playlists(&mut self) -> (r: Playlists)
        ensures
            r.client_spec() == old(self).client_spec(),
            r.path_spec() == "/users/"@ + decimal(old(self).id_spec() as nat) + "/playlists"@,
            *final(self) == *old(self),
    {
        Playlists::new(self.client.clone(), self.id)
    }

    /// The users this user follows.
    pub fn followings(&mut self) -> (r: Followings)
        ensures
            r.client_spec() == old(self).client_spec(),
            r.path_spec() == "/users/"@ + decimal(old(self).id_spec() as nat) + "/followings"@,
            *final(self) == *old(self),
    {
        Followings::new(self.client.clone(), self.id)
    }

    /// The users who follow this user.
    pub fn followers(&mut self) -> (r: Followers)
        ensures
            r.client_spec() == old(self).client_spec(),
            r.path_spec() == "/users/"@ + decimal(old(self).id_spec() as nat) + "/followers"@,
            *final(self) == *old(self),
    {
        Followers::new(self.client.clone(), self.id)
    }

    /// The web profiles of this user.
    pub fn web_profiles(&mut self) -> (r: WebProfiles)
        ensures
            r.client_spec() == old(self).client_spec(),
            r.path_spec() == "/users/"@ + decimal(old(self).id_spec() as nat) + "/web-profiles"@,
            *final(self) == *old(self),
    {
        WebProfiles::new(self.client.clone(), self.id)
    }

    /// The path of the user on the API host.
    pub fn path(&self) -> (r: String)
        ensures
            r@ == "/users/"@ + decimal(self.id_spec() as nat),
    {
        let r = id_path("/users/", self.id, "");
        proof {
            reveal_strlit("");
            assert(r@ =~= "/users/"@ + decimal(self.id_spec() as nat));
        }
        r
    }
}

} // verus!
