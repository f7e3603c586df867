//! A typed client library for a paged music-hosting REST API.
//!
//! The core of the library is the pagination engine in [`traversal`]: a
//! state machine that turns a chain of linked pages into one ordered
//! sequence of items, with a bound on the number of pages or without one.
//! The transport (HTTP and JSON) is driven from outside the library; the
//! library decides which URL is fetched next and what is yielded.
use vstd::prelude::*;

pub mod client;
pub mod collections;
pub mod error;
pub mod link;
pub mod models;
pub mod page;
pub mod playlists;
pub mod traversal;
pub mod text;
pub mod tracks;
pub mod users;

pub use crate::client::Client;
pub use crate::collections::{
    Comments, Followers, Followings, Likes, Playlists, RelatedTracks, StreamingApi, TrackLikers, Tracks,
    WebProfiles,
};
pub use crate::error::Error;
pub use crate::models::{
    App, Comment, Like, Playlist, PlaylistKind, PlaylistSharing, PlaylistType, Track, User, WebProfile,
    WebProfileKind,
};
pub use crate::page::{Page, PageOptions, PageOptionsBuilder};
pub use crate::playlists::{PlaylistRequestBuilder, SinglePlaylistRequestBuilder};
pub use crate::tracks::{Filter, SingleTrackRequestBuilder, TrackRequestBuilder};
pub use crate::traversal::{Step, Traversal};
pub use crate::users::{SingleUserRequestBuilder, UserRequestBuilder};

verus! {

/// The address of the API host.
pub const API_HOST: &'static str = "https://api-v2.soundcloud.com";

} // verus!
