//! The paged collections of the API, and the walk over each of them.
use vstd::prelude::*;

use crate::client::Client;
use crate::models::{Comment, Playlist, Track, User, WebProfile};
use crate::page::{form_encoded, PageOptions};
use crate::text::{decimal, id_path};
use crate::traversal::{cap_view, start, Traversal};

verus! {

/// The URL of the first page of a collection: the resource at `path` on
/// `host`, with the encoded page options as its query where there are any.
pub open spec fn first_page_url(host: Seq<char>, path: Seq<char>, options: Seq<(Seq<char>, Seq<char>)>) -> Seq<char> {
    if options.len() == 0 {
        host + path
    } else {
        host + path + "?"@ + form_encoded(options)
    }
}

/// A paged collection of the API.
pub trait StreamingApi {
    /// The records that the collection holds.
    type Model;

    /// The path of the collection on the API host.
    spec fn path_spec(&self) -> Seq<char>;

    /// The client that the collection is read with.
    spec fn client_spec(&self) -> Client;

    /// The path of the collection on the API host.
    fn path(&self) -> (r: String)
        ensures
            r@ == self.path_spec(),
    ;

    /// The client that the collection is read with.
    fn client(&self) -> (r: &Client)
        ensures
            *r == self.client_spec(),
    ;

    /// A walk over the collection that starts with the options and fetches
    /// at most `num_pages` pages, or follows every link where it is `None`.
    fn fetch(&self, options: &PageOptions, num_pages: Option<u64>) -> (r: Traversal<Self::Model>)
        ensures
            r@ == start::<Self::Model>(
                first_page_url(self.client_spec().host_spec(), self.path_spec(), options@),
                cap_view(num_pages),
            ),
    {
        let mut url = self.client().resource_url(self.path().as_str());
        match options.serialize() {
            Some(params) => {
                url.append("?");
                url.append(params.as_str());
            },
            None => {},
        }
        Traversal::new(url, num_pages)
    }
}

/// The collection of a user's tracks.
#[derive(Clone, Debug)]
pub struct Tracks {
    client: Client,
    user_id: usize,
}

impl Tracks {
    /// The collection of a user's tracks, for the user `user_id`.
    pub fn new(client: Client, user_id: usize) -> (r: Self)
        ensures
            r.client_spec() == client,
            r.path_spec() == "/users/"@ + decimal(user_id as nat) + "/tracks"@,
    {
        Tracks { client, user_id }
    }
}

impl StreamingApi for Tracks {
    type Model = Track;

    closed spec fn path_spec(&self) -> Seq<char> {
        "/users/"@ + decimal(self.user_id as nat) + "/tracks"@
    }

    closed spec fn client_spec(&self) -> Client {
        self.client
    }

    fn path(&self) -> (r: String) {
        id_path("/users/", self.user_id, "/tracks")
    }

    fn client(&self) -> (r: &Client) {
        &self.client
    }
}

/// The collection of the tracks a user likes.
#[derive(Clone, Debug)]
pub struct Likes {
    client: Client,
    user_id: usize,
}

impl Likes {
    /// The collection of the tracks a user likes, for the user `user_id`.
    pub fn new(client: Client, user_id: usize) -> (r: Self)
        ensures
            r.client_spec() == client,
            r.path_spec() == "/users/"@ + decimal(user_id as nat) + "/favorites"@,
    {
        Likes { client, user_id }
    }
}

impl StreamingApi for Likes {
    type Model = Track;

    closed spec fn path_spec(&self) -> Seq<char> {
        "/users/"@ + decimal(self.user_id as nat) + "/favorites"@
    }

    closed spec fn client_spec(&self) -> Client {
        self.client
    }

    fn path(&self) -> (r: String) {
        id_path("/users/", self.user_id, "/favorites")
    }

    fn client(&self) -> (r: &Client) {
        &self.client
    }
}

/// The collection of a user's playlists.
#[derive(Clone, Debug)]
pub struct Playlists {
    client: Client,
    user_id: usize,
}

impl Playlists {
    /// The collection of a user's playlists, for the user `user_id`.
    pub fn new(client: Client, user_id: usize) -> (r: Self)
        ensures
            r.client_spec() == client,
            r.path_spec() == "/users/"@ + decimal(user_id as nat) + "/playlists"@,
    {
        Playlists { client, user_id }
    }
}

impl StreamingApi for Playlists {
    type Model = Playlist;

    closed spec fn path_spec(&self) -> Seq<char> {
        "/users/"@ + decimal(self.user_id as nat) + "/playlists"@
    }

    closed spec fn client_spec(&self) -> Client {
        self.client
    }

    fn path(&self) -> (r: String) {
        id_path("/users/", self.user_id, "/playlists")
    }

    fn client(&self) -> (r: &Client) {
        &self.client
    }
}

/// The collection of the users a user follows.
#[derive(Clone, Debug)]
pub struct Followings {
    client: Client,
    user_id: usize,
}

impl Followings {
    /// The collection of the users a user follows, for the user `user_id`.
    pub fn new(client: Client, user_id: usize) -> (r: Self)
        ensures
            r.client_spec() == client,
            r.path_spec() == "/users/"@ + decimal(user_id as nat) + "/followings"@,
    {
        Followings { client, user_id }
    }
}

impl StreamingApi for Followings {
    type Model = User;

    closed spec fn path_spec(&self) -> Seq<char> {
        "/users/"@ + decimal(self.user_id as nat) + "/followings"@
    }

    closed spec fn client_spec(&self) -> Client {
        self.client
    }

    fn path(&self) -> (r: String) {
        id_path("/users/", self.user_id, "/followings")
    }

    fn client(&self) -> (r: &Client) {
        &self.client
    }
}

/// The collection of the followers of a user.
#[derive(Clone, Debug)]
pub struct Followers {
    client: Client,
    user_id: usize,
}

impl Followers {
    /// The collection of the followers of a user, for the user `user_id`.
    pub fn new(client: Client, user_id: usize) -> (r: Self)
        ensures
            r.client_spec() == client,
            r.path_spec() == "/users/"@ + decimal(user_id as nat) + "/followers"@,
    {
        Followers { client, user_id }
    }
}

impl StreamingApi for Followers {
    type Model = User;

    closed spec fn path_spec(&self) -> Seq<char> {
        "/users/"@ + decimal(self.user_id as nat) + "/followers"@
    }

    closed spec fn client_spec(&self) -> Client {
        self.client
    }

    fn path(&self) -> (r: String) {
        id_path("/users/", self.user_id, "/followers")
    }

    fn client(&self) -> (r: &Client) {
        &self.client
    }
}

/// The collection of a user's web profiles.
#[derive(Clone, Debug)]
pub struct WebProfiles {
    client: Client,
    user_id: usize,
}

impl WebProfiles {
    /// The collection of a user's web profiles, for the user `user_id`.
    pub fn new(client: Client, user_id: usize) -> (r: Self)
        ensures
            r.client_spec() == client,
            r.path_spec() == "/users/"@ + decimal(user_id as nat) + "/web-profiles"@,
    {
        WebProfiles { client, user_id }
    }
}

impl StreamingApi for WebProfiles {
    type Model = WebProfile;

    closed spec fn path_spec(&self) -> Seq<char> {
        "/users/"@ + decimal(self.user_id as nat) + "/web-profiles"@
    }

    closed spec fn client_spec(&self) -> Client {
        self.client
    }

    fn path(&self) -> (r: String) {
        id_path("/users/", self.user_id, "/web-profiles")
    }

    fn client(&self) -> (r: &Client) {
        &self.client
    }
}

/// The collection of the users who like a track.
#[derive(Clone, Debug)]
pub struct TrackLikers {
    client: Client,
    track_id: usize,
}

impl TrackLikers {
    /// The collection of the users who like a track, for the track `track_id`.
    pub fn new(client: Client, track_id: usize) -> (r: Self)
        ensures
            r.client_spec() == client,
            r.path_spec() == "/tracks/"@ + decimal(track_id as nat) + "/favoriters"@,
    {
        TrackLikers { client, track_id }
    }
}

impl StreamingApi for TrackLikers {
    type Model = User;

    closed spec fn path_spec(&self) -> Seq<char> {
        "/tracks/"@ + decimal(self.track_id as nat) + "/favoriters"@
    }

    closed spec fn client_spec(&self) -> Client {
        self.client
    }

    fn path(&self) -> (r: String) {
        id_path("/tracks/", self.track_id, "/favoriters")
    }

    fn client(&self) -> (r: &Client) {
        &self.client
    }
}

/// The collection of the tracks related to a track.
#[derive(Clone, Debug)]
pub struct RelatedTracks {
    client: Client,
    track_id: usize,
}

impl RelatedTracks {
    /// The collection of the tracks related to a track, for the track `track_id`.
    pub fn new(client: Client, track_id: usize) -> (r: Self)
        ensures
            r.client_spec() == client,
            r.path_spec() == "/tracks/"@ + decimal(track_id as nat) + "/related"@,
    {
        RelatedTracks { client, track_id }
    }
}

impl StreamingApi for RelatedTracks {
    type Model = Track;

    closed spec fn path_spec(&self) -> Seq<char> {
        "/tracks/"@ + decimal(self.track_id as nat) + "/related"@
    }

    closed spec fn client_spec(&self) -> Client {
        self.client
    }

    fn path(&self) -> (r: String) {
        id_path("/tracks/", self.track_id, "/related")
    }

    fn client(&self) -> (r: &Client) {
        &self.client
    }
}

/// The comments of a user, or those on a track.
#[derive(Clone, Debug)]
pub enum Comments {
    User { client: Client, user_id: usize },
    Track { client: Client, track_id: usize },
}

impl Comments {
    /// The comments that the user `user_id` wrote.
    pub fn user(client: Client, user_id: usize) -> (r: Self)
        ensures
            r.client_spec() == client,
            r.path_spec() == "/users/"@ + decimal(user_id as nat) + "/comments"@,
    {
        Comments::User { client, user_id }
    }

    /// The comments on the track `track_id`.
    pub fn track(client: Client, track_id: usize) -> (r: Self)
        ensures
            r.client_spec() == client,
            r.path_spec() == "/tracks/"@ + decimal(track_id as nat) + "/comments"@,
    {
        Comments::Track { client, track_id }
    }
}

impl StreamingApi for Comments {
    type Model = Comment;

    open spec fn path_spec(&self) -> Seq<char> {
        match self {
            Comments::Track { track_id, .. } => "/tracks/"@ + decimal(*track_id as nat) + "/comments"@,
            Comments::User { user_id, .. } => "/users/"@ + decimal(*user_id as nat) + "/comments"@,
        }
    }

    open spec fn client_spec(&self) -> Client {
        match self {
            Comments::Track { client, .. } => *client,
            Comments::User { client, .. } => *client,
        }
    }

    fn path(&self) -> (r: String) {
        match self {
            Comments::Track { track_id, .. } => id_path("/tracks/", *track_id, "/comments"),
            Comments::User { user_id, .. } => id_path("/users/", *user_id, "/comments"),
        }
    }

    fn client(&self) -> (r: &Client) {
        match self {
            Comments::Track { client, .. } => client,
            Comments::User { client, .. } => client,
        }
    }
}

} // verus!
