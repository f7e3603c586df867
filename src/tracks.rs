//! Requests for tracks: searches, and one track by its id.
use vstd::prelude::*;

use crate::client::Client;
use crate::collections::{Comments, RelatedTracks, StreamingApi, TrackLikers};
use crate::error::Error;
use crate::link::{opt_pair, pairs_view, push_opt};
use crate::page::opt_view;
use crate::text::{decimal, decimals, id_path, join, join_decimals, join_texts, texts};

verus! {

/// Which tracks a search returns by their sharing status.
#[derive(Debug, Clone, Copy, PartialEq, Eq, Structural)]
pub enum Filter {
    All,
    Public,
    Private,
}

/// The text that names a filter.
pub open spec fn filter_text(f: Filter) -> Seq<char> {
    match f {
        Filter::All => "all"@,
        Filter::Public => "public"@,
        Filter::Private => "private"@,
    }
}

impl Filter {
    /// The text that names the filter.
    pub fn to_str(&self) -> (r: &'static str)
        ensures
            r@ == filter_text(*self),
    {
        match *self {
            Filter::All => "all",
            Filter::Public => "public",
            Filter::Private => "private",
        }
    }

    /// The filter that `s` names.
    pub fn parse(s: &str) -> (r: Result<Filter, Error>)
        ensures
            s@ == "all"@ ==> r == Ok::<Filter, Error>(Filter::All),
            s@ == "public"@ ==> r == Ok::<Filter, Error>(Filter::Public),
            s@ == "private"@ ==> r == Ok::<Filter, Error>(Filter::Private),
            s@ != "all"@ && s@ != "public"@ && s@ != "private"@ ==> (r matches Err(Error::InvalidFilter(t)) && t@ == s@),
    {
        proof {
            reveal_strlit("all");
            reveal_strlit("public");
            reveal_strlit("private");
            assert("all"@.len() == 3 && "public"@.len() == 6 && "private"@.len() == 7);
        }
        let t = s.to_owned();
        if t.eq(&"all".to_owned()) {
            Ok(Filter::All)
        } else if t.eq(&"public".to_owned()) {
            Ok(Filter::Public)
        } else if t.eq(&"private".to_owned()) {
            Ok(Filter::Private)
        } else {
            Err(Error::InvalidFilter(t))
        }
    }
}

impl std::str::FromStr for Filter {
    type Err = Error;

    fn from_str(s: &str) -> Result<Filter, Error> {
        Filter::parse(s)
    }
}

/// The criteria of a track search.
pub struct TrackQuery {
    pub query: Option<Seq<char>>,
    pub tags: Option<Seq<char>>,
    pub filter: Option<Filter>,
    pub license: Option<Seq<char>>,
    pub ids: Option<Seq<usize>>,
    pub genres: Option<Seq<char>>,
}

/// The query parameters that a track search sends. The license is kept
/// with the criteria but not sent.
pub open spec fn track_params(q: TrackQuery) -> Seq<(Seq<char>, Seq<char>)> {
    opt_pair("q"@, q.query)
        + opt_pair("tags"@, q.tags)
        + opt_pair("filter"@, match q.filter { Some(f) => Some(filter_text(f)), None => None })
        + opt_pair("ids"@, match q.ids { Some(ids) => Some(join(decimals(ids), ","@)), None => None })
        + opt_pair("genres"@, q.genres)
}

/// A search for tracks by several criteria.
#[derive(Debug)]
pub struct TrackRequestBuilder<'a> {
    client: &'a Client,
    query: Option<String>,
    tags: Option<String>,
    filter: Option<Filter>,
    license: Option<String>,
    ids: Option<Vec<usize>>,
    genres: Option<String>,
}

/// A request for one track.
#[derive(Debug)]
pub struct SingleTrackRequestBuilder<'a> {
    client: &'a Client,
    pub id: usize,
}

impl<'a> View for TrackRequestBuilder<'a> {
    type V = TrackQuery;

    closed spec fn view(&self) -> TrackQuery {
        TrackQuery {
            query: opt_view(self.query),
            tags: opt_view(self.tags),
            filter: self.filter,
            license: opt_view(self.license),
            ids: match self.ids { Some(v) => Some(v@), None => None },
            genres: opt_view(self.genres),
        }
    }
}

fn owned(s: Option<&str>) -> (r: Option<String>)
    ensures
        opt_view(r) == match s { Some(t) => Some(t@), None => None::<Seq<char>> },
{
    match s {
        Some(t) => Some(t.to_owned()),
        None => None,
    }
}

fn joined(parts: Option<&[&str]>) -> (r: Option<String>)
    ensures
        opt_view(r) == match parts { Some(p) => Some(join(texts(p@), ","@)), None => None::<Seq<char>> },
{
    match parts {
        Some(p) => Some(join_texts(p, ",")),
        None => None,
    }
}

impl<'a> SingleTrackRequestBuilder<'a> {
    /// The client that the request is made with.
    pub closed spec fn client_spec(&self) -> Client {
        *self.client
    }

    /// The id of the requested resource.
    pub closed spec fn id_spec(&self) -> usize {
        self.id
    }

    /// A request for the track `id`.
    pub fn new(client: &'a Client, id: usize) -> (r: SingleTrackRequestBuilder<'a>)
        ensures
            r.client_spec() == *client,
            r.id_spec() == id,
    {
        SingleTrackRequestBuilder { client, id }
    }

    /// The client that the request is made with.
    pub fn client(&self) -> (r: &'a Client)
        ensures
            *r == self.client_spec(),
    {
        self.client
    }

    /// The comments on this track.
    pub fn comments(&mut self) -> (r: Comments)
        ensures
            r.client_spec() == old(self).client_spec(),
            r.path_spec() == "/tracks/"@ + decimal(old(self).id_spec() as nat) + "/comments"@,
            *final(self) == *old(self),
    {
        Comments::track(self.client.clone(), self.id)
    }

    /// The tracks related to this track.
    pub fn related_tracks(&mut self) -> (r: RelatedTracks)
        ensures
            r.client_spec() == old(self).client_spec(),
            r.path_spec() == "/tracks/"@ + decimal(old(self).id_spec() as nat) + "/related"@,
            *final(self) == *old(self),
    {
        RelatedTracks::new(self.client.clone(), self.id)
    }

    /// The users who like this track.
    pub fn likers(&mut self) -> (r: TrackLikers)
        ensures
            r.client_spec() == old(self).client_spec(),
            r.path_spec() == "/tracks/"@ + decimal(old(self).id_spec() as nat) + "/favoriters"@,
            *final(self) == *old(self),
    {
        TrackLikers::new(self.client.clone(), self.id)
    }

    /// The path of the track on the API host.
    pub fn path(&self) -> (r: String)
        ensures
            r@ == "/tracks/"@ + decimal(self.id_spec() as nat),
    {
        let r = id_path("/tracks/", self.id, "");
        proof {
            reveal_strlit("");
            assert(r@ =~= "/tracks/"@ + decimal(self.id as nat));
        }
        r
    }
}

impl<'a> TrackRequestBuilder<'a> {
    /// The client that the request is made with.
    pub closed spec fn client_spec(&self) -> Client {
        *self.client
    }

    /// A search with no criteria set.
    pub fn new(client: &'a Client) -> (r: TrackRequestBuilder<'a>)
        ensures
            r.client_spec() == *client,
            r@ == (TrackQuery { query: None, tags: None, filter: None, license: None, ids: None, genres: None }),
    {
        TrackRequestBuilder {
            client,
            query: None,
            tags: None,
            filter: None,
            license: None,
            ids: None,
            genres: None,
        }
    }

    /// The client that the search is made with.
    pub fn client(&self) -> (r: &'a Client)
        ensures
            *r == self.client_spec(),
    {
        self.client
    }

    /// Returns only tracks that match the search text.
    pub fn query(&mut self, query: Option<&str>) -> (r: &mut Self)
        ensures
            r@ == (TrackQuery { query: match query { Some(t) => Some(t@), None => None }, ..old(self)@ }),
            r.client_spec() == old(self).client_spec(),
            *final(self) == *final(r),
    {
        self.query = owned(query);
        self
    }

    /// Returns only tracks with one of the tags.
    pub fn tags(&mut self, tags: Option<&[&str]>) -> (r: &mut Self)
        ensures
            r@ == (TrackQuery { tags: match tags { Some(p) => Some(join(texts(p@), ","@)), None => None }, ..old(self)@ }),
            r.client_spec() == old(self).client_spec(),
            *final(self) == *final(r),
    {
        self.tags = joined(tags);
        self
    }

    /// Returns only tracks of one of the genres.
    pub fn genres(&mut self, genres: Option<&[&str]>) -> (r: &mut Self)
        ensures
            r@ == (TrackQuery { genres: match genres { Some(p) => Some(join(texts(p@), ","@)), None => None }, ..old(self)@ }),
            r.client_spec() == old(self).client_spec(),
            *final(self) == *final(r),
    {
        self.genres = joined(genres);
        self
    }

    /// Returns only public tracks, only private ones, or all.
    pub fn filter(&mut self, filter: Option<Filter>) -> (r: &mut Self)
        ensures
            r@ == (TrackQuery { filter, ..old(self)@ }),
            r.client_spec() == old(self).client_spec(),
            *final(self) == *final(r),
    {
        self.filter = filter;
        self
    }

    /// Sets the license criterion.
    pub fn license(&mut self, license: Option<&str>) -> (r: &mut Self)
        ensures
            r@ == (TrackQuery { license: match license { Some(t) => Some(t@), None => None }, ..old(self)@ }),
            r.client_spec() == old(self).client_spec(),
            *final(self) == *final(r),
    {
        self.license = owned(license);
        self
    }

    /// Looks up the tracks with these ids.
    pub fn ids(&mut self, ids: Option<Vec<usize>>) -> (r: &mut Self)
        ensures
            r@ == (TrackQuery { ids: match ids { Some(v) => Some(v@), None => None }, ..old(self)@ }),
            r.client_spec() == old(self).client_spec(),
            *final(self) == *final(r),
    {
        self.ids = ids;
        self
    }

    /// A request for the one track `id`.
    pub fn id(&mut self, id: usize) -> (r: SingleTrackRequestBuilder<'a>)
        ensures
            r.client_spec() == old(self).client_spec(),
            r.id_spec() == id,
            *final(self) == *old(self),
    {
        SingleTrackRequestBuilder { client: self.client, id }
    }

    /// The query parameters of the search.
    pub fn request_params(&self) -> (r: Vec<(String, String)>)
        ensures
            pairs_view(r@) == track_params(self@),
    {
        let mut result: Vec<(String, String)> = Vec::new();
        proof {
            assert(pairs_view(result@) =~= Seq::<(Seq<char>, Seq<char>)>::empty());
        }
        push_opt(&mut result, "q", &self.query);
        push_opt(&mut result, "tags", &self.tags);
        let filter = match self.filter {
            Some(f) => Some(f.to_str().to_owned()),
            None => None,
        };
        push_opt(&mut result, "filter", &filter);
        let ids = match &self.ids {
            Some(v) => Some(join_decimals(v, ",")),
            None => None,
        };
        push_opt(&mut result, "ids", &ids);
        push_opt(&mut result, "genres", &self.genres);
        proof {
            assert(pairs_view(result@) =~= track_params(self@));
        }
        result
    }
}

} // verus!
