//! The client: the identity it sends and the URLs it requests.
use vstd::prelude::*;

use crate::error::Error;
use crate::link::{has_name, pairs_view, url_parses, url_query, url_with_pairs, with_pair_if_missing, with_pairs};
use crate::models::Track;
use crate::playlists::{PlaylistRequestBuilder, SinglePlaylistRequestBuilder};
use crate::tracks::{SingleTrackRequestBuilder, TrackQuery, TrackRequestBuilder};
use crate::users::{SingleUserRequestBuilder, UserRequestBuilder};
use crate::API_HOST;

verus! {

/// What reading a media file at `url` requests, for the client `client_id`.
pub open spec fn media_result(url: Seq<char>, client_id: Seq<char>) -> Result<Seq<char>, Error> {
    if url_parses(url) {
        Ok(url_with_pairs(url, seq![(CLIENT_ID_PARAM@, client_id)]))
    } else {
        Err(Error::InvalidUrl)
    }
}

/// The view of a result that holds a string.
pub open spec fn text_result(r: Result<String, Error>) -> Result<Seq<char>, Error> {
    match r {
        Ok(s) => Ok(s@),
        Err(e) => Err(e),
    }
}

/// The name of the query parameter that carries the client's identity.
pub const CLIENT_ID_PARAM: &'static str = "client_id";

/// How many records the listings of the authenticated user ask for.
pub const LISTING_LIMIT: &'static str = "500";

/// A handle on the API: its host, the identity of the client and an
/// optional access token. It builds the URLs that requests go to; the
/// requests themselves are sent by the caller's transport.
#[derive(Debug)]
pub struct Client {
    host: String,
    client_id: String,
    auth_token: Option<String>,
}

impl Clone for Client {
    fn clone(&self) -> (r: Self)
        ensures
            r == *self,
    {
        let auth_token = match &self.auth_token {
            Some(t) => Some(t.clone()),
            None => None,
        };
        Client { host: self.host.clone(), client_id: self.client_id.clone(), auth_token }
    }
}

impl Client {
    /// The host that requests go to.
    pub closed spec fn host_spec(&self) -> Seq<char> {
        self.host@
    }

    /// The identity that requests carry.
    pub closed spec fn client_id_spec(&self) -> Seq<char> {
        self.client_id@
    }

    /// The access token, where one was given.
    pub closed spec fn token_spec(&self) -> Option<Seq<char>> {
        match self.auth_token {
            Some(t) => Some(t@),
            None => None,
        }
    }

    /// A client for the API host that identifies itself as `client_id`.
    pub fn new(client_id: &str) -> (r: Client)
        ensures
            r.host_spec() == API_HOST@,
            r.client_id_spec() == client_id@,
            r.token_spec() is None,
    {
        Client { host: API_HOST.to_owned(), client_id: client_id.to_owned(), auth_token: None }
    }

    /// The identity of the client.
    pub fn client_id(&self) -> (r: &str)
        ensures
            r@ == self.client_id_spec(),
    {
        self.client_id.as_str()
    }

    /// The host that requests go to.
    pub fn host(&self) -> (r: &str)
        ensures
            r@ == self.host_spec(),
    {
        self.host.as_str()
    }

    /// Sends `token` with every request from now on.
    pub fn authenticate_with_token(&mut self, token: String)
        ensures
            final(self).token_spec() == Some(token@),
            final(self).host_spec() == old(self).host_spec(),
            final(self).client_id_spec() == old(self).client_id_spec(),
    {
        self.auth_token = Some(token);
    }

    /// The value of the `Authorization` header, where a token was given.
    pub fn authorization(&self) -> (r: Option<String>)
        ensures
            self.token_spec() is None ==> r is None,
            self.token_spec() matches Some(t) ==> (r matches Some(v) && v@ == "OAuth "@ + t),
    {
        match &self.auth_token {
            Some(token) => {
                let v = "OAuth ".to_owned();
                Some(v.concat(token.as_str()))
            },
            None => None,
        }
    }

    /// The URL of a resource of the API at `path`.
    pub fn resource_url(&self, path: &str) -> (r: String)
        ensures
            r@ == self.host_spec() + path@,
    {
        self.host.clone().concat(path)
    }

    /// The URL of a request to `path` with the parameters `params`: the
    /// client's identity comes first in its query, the parameters after it.
    pub fn request_url(&self, path: &str, params: &Vec<(String, String)>) -> (r: Result<String, Error>)
        ensures
            url_parses(self.host_spec() + path@) ==> (r matches Ok(s) && s@ == url_with_pairs(
                self.host_spec() + path@,
                seq![(CLIENT_ID_PARAM@, self.client_id_spec())] + pairs_view(params@),
            )),
            !url_parses(self.host_spec() + path@) ==> r == Err::<String, Error>(Error::InvalidUrl),
    {
        let link = self.resource_url(path);
        let mut pairs: Vec<(String, String)> = Vec::new();
        pairs.push((CLIENT_ID_PARAM.to_owned(), self.client_id.clone()));
        let mut i: usize = 0;
        while i < params.len()
            invariant
                i <= params@.len(),
                pairs_view(pairs@) == seq![(CLIENT_ID_PARAM@, self.client_id_spec())] + pairs_view(params@).take(i as int),
            decreases params.len() - i,
        {
            let name = params[i].0.clone();
            let value = params[i].1.clone();
            let ghost p0 = pairs@;
            pairs.push((name, value));
            assert(pairs_view(pairs@) =~= pairs_view(p0).push(pairs_view(params@)[i as int]));
            assert(pairs_view(pairs@) =~= seq![(CLIENT_ID_PARAM@, self.client_id_spec())] + pairs_view(params@).take(i + 1));
            i = i + 1;
        }
        assert(pairs_view(params@).take(i as int) =~= pairs_view(params@));
        with_pairs(link.as_str(), &pairs)
    }

    /// The URL that a page at `link` is fetched from: the client's identity
    /// is added to its query unless the query already carries one.
    pub fn page_url(&self, link: &str) -> (r: Result<String, Error>)
        ensures
            !url_parses(link@) ==> r == Err::<String, Error>(Error::InvalidUrl),
            url_parses(link@) && has_name(url_query(link@), CLIENT_ID_PARAM@) ==> (r matches Ok(s) && s@ == link@),
            url_parses(link@) && !has_name(url_query(link@), CLIENT_ID_PARAM@) ==> (r matches Ok(s) && s@
                == url_with_pairs(link@, seq![(CLIENT_ID_PARAM@, self.client_id_spec())])),
    {
        with_pair_if_missing(link, CLIENT_ID_PARAM, self.client_id.as_str())
    }

    /// The URL that a media file at `url` is read from: `url` with the
    /// client's identity appended to its query.
    pub fn media_url(&self, url: &str) -> (r: Result<String, Error>)
        ensures
            text_result(r) == media_result(url@, self.client_id_spec()),
    {
        let mut pairs: Vec<(String, String)> = Vec::new();
        pairs.push((CLIENT_ID_PARAM.to_owned(), self.client_id.clone()));
        proof {
            assert(pairs_view(pairs@) =~= seq![(CLIENT_ID_PARAM@, self.client_id_spec())]);
        }
        with_pairs(url, &pairs)
    }

    /// The URL that `track` is streamed from.
    pub fn stream_source(&self, track: &Track) -> (r: Result<String, Error>)
        ensures
            !track.streamable ==> r == Err::<String, Error>(Error::TrackNotStreamable),
            track.streamable && track.stream_url is None ==> r matches Err(Error::ApiError(_)),
            track.streamable && track.stream_url is Some ==> text_result(r) == media_result(track.stream_url->Some_0@, self.client_id_spec()),
    {
        if !track.streamable {
            return Err(Error::TrackNotStreamable);
        }
        match &track.stream_url {
            Some(u) => self.media_url(u.as_str()),
            None => Err(Error::ApiError("the track has no stream URL".to_owned())),
        }
    }

    /// The URL that `track` is downloaded from.
    pub fn download_source(&self, track: &Track) -> (r: Result<String, Error>)
        ensures
            !track.downloadable ==> r == Err::<String, Error>(Error::TrackNotDownloadable),
            track.downloadable && track.download_url is None ==> r matches Err(Error::ApiError(_)),
            track.downloadable && track.download_url is Some ==> text_result(r) == media_result(track.download_url->Some_0@, self.client_id_spec()),
    {
        if !track.downloadable {
            return Err(Error::TrackNotDownloadable);
        }
        match &track.download_url {
            Some(u) => self.media_url(u.as_str()),
            None => Err(Error::ApiError("the track has no download URL".to_owned())),
        }
    }

    /// A request for the track `id`.
    pub fn track(&self, id: usize) -> (r: SingleTrackRequestBuilder<'_>)
        ensures
            r.client_spec() == *self,
            r.id_spec() == id,
    {
        SingleTrackRequestBuilder::new(self, id)
    }

    /// A search for tracks.
    pub fn tracks(&self) -> (r: TrackRequestBuilder<'_>)
        ensures
            r.client_spec() == *self,
            r@ == (TrackQuery { query: None, tags: None, filter: None, license: None, ids: None, genres: None }),
    {
        TrackRequestBuilder::new(self)
    }

    /// A request for the playlist `id`.
    pub fn playlist(&self, id: usize) -> (r: SinglePlaylistRequestBuilder<'_>)
        ensures
            r.client_spec() == *self,
            r.id_spec() == id,
    {
        SinglePlaylistRequestBuilder::new(self, id)
    }

    /// A search for playlists.
    pub fn playlists(&self) -> (r: PlaylistRequestBuilder<'_>)
        ensures
            r.client_spec() == *self,
            r.query_spec() is None,
    {
        PlaylistRequestBuilder::new(self)
    }

    /// A request for the user `user_id`.
    pub fn user(&self, user_id: usize) -> (r: SingleUserRequestBuilder<'_>)
        ensures
            r.client_spec() == *self,
            r.id_spec() == user_id,
    {
        SingleUserRequestBuilder::new(self, user_id)
    }

    /// A search for users.
    pub fn users(&self) -> (r: UserRequestBuilder<'_>)
        ensures
            r.client_spec() == *self,
            r.query_spec() is None,
    {
        UserRequestBuilder::new(self)
    }

    /// The URL that resolves a page of the site to its API resource.
    pub fn resolve_url(&self, url: &str) -> (r: Result<String, Error>)
        ensures
            url_parses(self.host_spec() + "/resolve"@) ==> (r matches Ok(s) && s@ == url_with_pairs(
                self.host_spec() + "/resolve"@,
                seq![(CLIENT_ID_PARAM@, self.client_id_spec()), ("url"@, url@)],
            )),
            !url_parses(self.host_spec() + "/resolve"@) ==> r == Err::<String, Error>(Error::InvalidUrl),
    {
        let mut params: Vec<(String, String)> = Vec::new();
        params.push(("url".to_owned(), url.to_owned()));
        proof {
            assert(seq![(CLIENT_ID_PARAM@, self.client_id_spec())] + pairs_view(params@) =~= seq![(CLIENT_ID_PARAM@, self.client_id_spec()), ("url"@, url@)]);
        }
        self.request_url("/resolve", &params)
    }

    /// The URL of a listing of the authenticated user at `path`, with room
    /// for the listing's limit of records.
    pub fn listing_url(&self, path: &str) -> (r: Result<String, Error>)
        ensures
            url_parses(self.host_spec() + path@) ==> (r matches Ok(s) && s@ == url_with_pairs(
                self.host_spec() + path@,
                seq![(CLIENT_ID_PARAM@, self.client_id_spec()), ("limit"@, LISTING_LIMIT@)],
            )),
            !url_parses(self.host_spec() + path@) ==> r == Err::<String, Error>(Error::InvalidUrl),
    {
        let mut params: Vec<(String, String)> = Vec::new();
        params.push(("limit".to_owned(), LISTING_LIMIT.to_owned()));
        proof {
            assert(seq![(CLIENT_ID_PARAM@, self.client_id_spec())] + pairs_view(params@) =~= seq![(CLIENT_ID_PARAM@, self.client_id_spec()), ("limit"@, LISTING_LIMIT@)]);
        }
        self.request_url(path, &params)
    }
}

} // verus!
