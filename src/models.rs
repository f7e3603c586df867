//! The records that the API returns.
use vstd::prelude::*;

verus! {

/// Registered client application.
#[derive(Debug, Clone)]
pub struct App {
    /// Integer ID.
    pub id: usize,
    /// API resource URL.
    pub uri: String,
    /// URL to the page of the application.
    pub permalink_url: String,
    /// URL to an external site.
    pub external_url: String,
    /// Username of the app creator.
    pub creator: Option<String>,
}

/// Registered user.
#[derive(Debug, Clone)]
pub struct User {
    /// Integer ID.
    pub id: usize,
    /// Permalink of the resource.
    pub permalink: String,
    /// Username.
    pub username: String,
    /// API resource URL.
    pub uri: String,
    /// URL to the user's page.
    pub permalink_url: String,
    /// URL to a JPEG image.
    pub avatar_url: String,
    /// Country.
    pub country: Option<String>,
    /// First and last name.
    pub full_name: Option<String>,
    /// City.
    pub city: Option<String>,
    /// Description, written by the user.
    pub description: Option<String>,
    /// Discogs name.
    pub discogs_name: Option<String>,
    /// MySpace name.
    pub myspace_name: Option<String>,
    /// URL to a website.
    pub website: Option<String>,
    /// Custom title for the website.
    pub website_title: Option<String>,
    /// Online status.
    pub online: Option<bool>,
    /// Number of public tracks.
    pub track_count: Option<usize>,
    /// Number of public playlists.
    pub playlist_count: Option<usize>,
    /// Number of followers.
    pub followers_count: Option<usize>,
    /// Number of followed users.
    pub followings_count: Option<usize>,
    /// Number of favorited public tracks.
    pub public_favorites_count: Option<usize>,
}

/// Uploaded track.
#[derive(Debug, Clone)]
pub struct Track {
    /// Integer ID.
    pub id: u64,
    /// Time of upload, as an unparsed string.
    pub created_at: String,
    /// Small representation of the uploader.
    pub user: User,
    /// Title.
    pub title: String,
    /// URL to the track's page.
    pub permalink_url: String,
    /// API resource URL.
    pub uri: String,
    /// Sharing status.
    pub sharing: String,
    /// External purchase link.
    pub purchase_url: Option<String>,
    /// URL to a JPEG image.
    pub artwork_url: Option<String>,
    /// HTML description.
    pub description: Option<String>,
    /// Duration in milliseconds.
    pub duration: u64,
    /// Genre.
    pub genre: Option<String>,
    /// List of tags.
    pub tags: Option<String>,
    /// Label user name.
    pub label_name: Option<String>,
    /// Release number.
    pub release: Option<String>,
    /// Day of the release.
    pub release_day: Option<u64>,
    /// Month of the release.
    pub release_month: Option<u64>,
    /// Year of the release.
    pub release_year: Option<u64>,
    /// Whether the track can be streamed through the API.
    pub streamable: bool,
    /// Whether the track can be downloaded.
    pub downloadable: bool,
    /// Purchase title.
    pub purchase_title: Option<String>,
    /// Creative common license.
    pub license: String,
    /// URL to waveform PNG image.
    pub waveform_url: String,
    /// URL to the uploaded audio file.
    pub download_url: Option<String>,
    /// URL to 128kbps mp3 stream.
    pub stream_url: Option<String>,
    /// Beats per minute.
    pub bpm: Option<u64>,
    /// Commentable.
    pub commentable: bool,
    /// ISRC.
    pub isrc: Option<String>,
    /// Key.
    pub key_signature: Option<String>,
    /// Number of comments.
    pub comment_count: Option<u64>,
    /// Number of downloads.
    pub download_count: Option<u64>,
    /// Number of playbacks.
    pub playback_count: Option<u64>,
    /// Number of times favorited.
    pub favoritings_count: Option<u64>,
    /// Application the track was uploaded with.
    pub created_with: Option<App>,
    /// Binary data of the audio file. Only for uploading.
    pub asset_data: Option<Vec<u8>>,
    /// Binary data of the artwork image. Only for uploading.
    pub artwork_data: Option<Vec<u8>>,
    /// User favorite.
    pub user_favorite: Option<bool>,
}

/// Two tracks are the same track when their ids are equal.
impl PartialEq for Track {
    fn eq(&self, other: &Track) -> (r: bool)
        ensures
            r == (self.id == other.id),
    {
        other.id == self.id
    }
}

impl vstd::std_specs::cmp::PartialEqSpecImpl for Track {
    open spec fn obeys_eq_spec() -> bool {
        true
    }

    open spec fn eq_spec(&self, other: &Track) -> bool {
        self.id == other.id
    }
}

/// User comment.
#[derive(Debug, Clone)]
pub struct Comment {
    /// Integer ID.
    pub id: usize,
    /// API resource URL.
    pub uri: String,
    /// Time of creation, as an unparsed string.
    pub created_at: String,
    /// HTML comment body.
    pub body: String,
    /// Associated timestamp in milliseconds.
    pub timestamp: Option<usize>,
    /// User ID of the commenter.
    pub user_id: usize,
    /// Small representation of the commenter.
    pub user: User,
    /// The ID of the track commented on.
    pub track_id: usize,
}

/// The kind of release a playlist is.
#[derive(Debug, Clone, Copy, PartialEq, Eq, Structural)]
pub enum PlaylistType {
    Single,
    Album,
    Ep,
    Compilation,
    Playlist,
}

impl Default for PlaylistType {
    /// A plain playlist.
    fn default() -> (r: Self)
        ensures
            r == PlaylistType::Playlist,
    {
        PlaylistType::Playlist
    }
}

/// The resource kind of a playlist.
#[derive(Debug, Clone, Copy, PartialEq, Eq, Structural)]
pub enum PlaylistKind {
    Playlist,
}

/// Who can see a playlist.
#[derive(Debug, Clone, Copy, PartialEq, Eq, Structural)]
pub enum PlaylistSharing {
    Public,
    Private,
}

/// A set of tracks.
#[derive(Debug, Clone)]
pub struct Playlist {
    pub duration: u64,
    pub release_day: Option<i32>,
    pub permalink_url: String,
    pub permalink: String,
    pub playlist_type: Option<PlaylistType>,
    pub purchase_url: Option<String>,
    pub description: Option<String>,
    pub uri: String,
    pub track_count: u64,
    pub user_id: u64,
    pub kind: PlaylistKind,
    pub title: String,
    pub id: u64,
    pub tracks: Option<Vec<Track>>,
    pub user: User,
    pub artwork_url: Option<String>,
}

/// The resource kind of a web profile.
#[derive(Debug, Clone, Copy, PartialEq, Eq, Structural)]
pub enum WebProfileKind {
    WebProfile,
}

/// A link from a user to a profile on another service.
#[derive(Debug, Clone)]
pub struct WebProfile {
    pub kind: WebProfileKind,
    pub id: usize,
    pub service: String,
    pub title: String,
    pub url: String,
    pub username: Option<String>,
    pub created_at: String,
}

/// A liked track or playlist.
#[derive(Debug, Clone)]
pub struct Like {
    pub track: Option<Track>,
    pub playlist: Option<Playlist>,
}

} // verus!
