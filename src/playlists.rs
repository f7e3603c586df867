//! Requests for playlists: searches, and one playlist by its id.
use vstd::prelude::*;

use crate::client::Client;
use crate::link::{opt_pair, pairs_view, push_opt};
use crate::page::opt_view;
use crate::text::{decimal, id_path};
use crate::API_HOST;

verus! {

/// A search for playlists.
#[derive(Debug)]
pub struct PlaylistRequestBuilder<'a> {
    client: &'a Client,
    query: Option<String>,
}

/// A request for one playlist.
#[derive(Debug)]
pub struct SinglePlaylistRequestBuilder<'a> {
    client: &'a Client,
    pub id: usize,
}

impl<'a> SinglePlaylistRequestBuilder<'a> {
    /// The client that the request is made with.
    pub closed spec fn client_spec(&self) -> Client {
        *self.client
    }

    /// The id of the requested resource.
    pub closed spec fn id_spec(&self) -> usize {
        self.id
    }

    /// A request for the playlist `id`.
    pub fn new(client: &'a Client, id: usize) -> (r: SinglePlaylistRequestBuilder<'a>)
        ensures
            r.client_spec() == *client,
            r.id_spec() == id,
    {
        SinglePlaylistRequestBuilder { client, id }
    }

    /// The client that the request is made with.
    pub fn client(&self) -> (r: &'a Client)
        ensures
            *r == self.client_spec(),
    {
        self.client
    }

    /// The path of the playlist on the API host.
    pub fn path(&self) -> (r: String)
        ensures
            r@ == "/playlists/"@ + decimal(self.id_spec() as nat),
    {
        let r = id_path("/playlists/", self.id, "");
        proof {
            reveal_strlit("");
            assert(r@ =~= "/playlists/"@ + decimal(self.id_spec() as nat));
        }
        r
    }

    /// The URL of the playlist on the API host.
    pub fn request_url(&self) -> (r: String)
        ensures
            r@ == API_HOST@ + "/playlists/"@ + decimal(self.id_spec() as nat),
    {
        let mut out = API_HOST.to_owned();
        out.append(self.path().as_str());
        proof {
            assert(out@ =~= API_HOST@ + "/playlists/"@ + decimal(self.id_spec() as nat));
        }
        out
    }
}

impl<'a> PlaylistRequestBuilder<'a> {
    /// The client that the request is made with.
    pub closed spec fn client_spec(&self) -> Client {
        *self.client
    }

    /// The search text, where one was given.
    pub closed spec fn query_spec(&self) -> Option<Seq<char>> {
        opt_view(self.query)
    }

    /// A search with no criteria set.
    pub fn new(client: &'a Client) -> (r: Self)
        ensures
            r.client_spec() == *client,
            r.query_spec() is None,
    {
        PlaylistRequestBuilder { client, query: None }
    }

    /// The client that the search is made with.
    pub fn client(&self) -> (r: &'a Client)
        ensures
            *r == self.client_spec(),
    {
        self.client
    }

    /// Returns only playlists that match the search text.
    pub fn query(&mut self, query: &str) -> (r: &mut Self)
        ensures
            r.query_spec() == Some(query@),
            r.client_spec() == old(self).client_spec(),
            *final(self) == *final(r),
    {
        self.query = Some(query.to_owned());
        self
    }

    /// A request for the one playlist `id`.
    pub fn id(&mut self, id: usize) -> (r: SinglePlaylistRequestBuilder<'a>)
        ensures
            r.client_spec() == old(self).client_spec(),
            r.id_spec() == id,
            *final(self) == *old(self),
    {
        SinglePlaylistRequestBuilder { client: self.client, id }
    }

    /// The query parameters of the search.
    pub fn request_params(&self) -> (r: Vec<(String, String)>)
        ensures
            pairs_view(r@) == opt_pair("q"@, self.query_spec()),
    {
        let mut result: Vec<(String, String)> = Vec::new();
        proof {
            assert(pairs_view(result@) =~= Seq::<(Seq<char>, Seq<char>)>::empty());
        }
        push_opt(&mut result, "q", &self.query);
        proof {
            assert(pairs_view(result@) =~= opt_pair("q"@, self.query_spec()));
        }
        result
    }
}

} // verus!
