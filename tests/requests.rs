use std::str::FromStr;

use soundcloud::text::{parse_decimal, to_decimal};
use soundcloud::{
    Client, Comments, Error, Filter, Followers, Followings, Likes, Page, PageOptions, PlaylistType, Playlists,
    RelatedTracks, Step, StreamingApi, TrackLikers, Tracks, WebProfiles, API_HOST,
};

fn client() -> Client {
    Client::new("abc")
}

#[test]
fn default_options_ask_for_fifteen_linked_items() {
    let options = PageOptions::default();
    assert_eq!(options.serialize(), Some("linked_partitioning=true&page_size=15".to_string()));
}

#[test]
fn no_options_serialize_to_nothing() {
    assert_eq!(PageOptions::builder().build().serialize(), None);
}

#[test]
fn page_size_set_twice_keeps_the_last() {
    let mut b = PageOptions::builder();
    b.page_size(20).page_size(50);
    assert_eq!(b.build().serialize(), Some("linked_partitioning=true&page_size=50".to_string()));
}

#[test]
fn next_query_of_a_page_without_link() {
    let page: Page<u32> = Page { collection: vec![], next_href: None };
    assert!(matches!(page.next_query(), Ok(None)));
}

#[test]
fn next_query_keeps_the_last_value_of_a_name() {
    let page: Page<u32> = Page {
        collection: vec![],
        next_href: Some("https://api.example.com/x?offset=15&limit=5&offset=30&q=a+b".to_string()),
    };
    let q = page.next_query().unwrap().unwrap();
    assert_eq!(
        q,
        vec![
            ("offset".to_string(), "30".to_string()),
            ("limit".to_string(), "5".to_string()),
            ("q".to_string(), "a b".to_string())
        ]
    );
}

#[test]
fn next_query_of_a_link_without_query() {
    let page: Page<u32> = Page { collection: vec![], next_href: Some("https://api.example.com/x".to_string()) };
    assert!(matches!(page.next_query(), Ok(None)));
}

#[test]
fn next_query_of_a_malformed_link() {
    let page: Page<u32> = Page { collection: vec![], next_href: Some("not a url".to_string()) };
    assert!(matches!(page.next_query(), Err(Error::InvalidUrl)));
}

#[test]
fn page_url_adds_the_identity_when_missing() {
    let url = client().page_url("https://api-v2.soundcloud.com/users/1/tracks?page_size=15").unwrap();
    assert_eq!(url, "https://api-v2.soundcloud.com/users/1/tracks?page_size=15&client_id=abc");
}

#[test]
fn page_url_keeps_an_identity_already_there() {
    let link = "https://api-v2.soundcloud.com/users/1/tracks?cursor=9&client_id=zzz";
    assert_eq!(client().page_url(link).unwrap(), link);
}

#[test]
fn page_url_of_a_malformed_link() {
    assert!(matches!(client().page_url("::"), Err(Error::InvalidUrl)));
}

#[test]
fn request_url_puts_the_identity_first() {
    let params = vec![("q".to_string(), "day & night".to_string())];
    let url = client().request_url("/tracks", &params).unwrap();
    assert_eq!(url, "https://api-v2.soundcloud.com/tracks?client_id=abc&q=day+%26+night");
}

#[test]
fn resolve_and_listing_urls() {
    let c = client();
    assert_eq!(
        c.resolve_url("https://soundcloud.com/someone").unwrap(),
        "https://api-v2.soundcloud.com/resolve?client_id=abc&url=https%3A%2F%2Fsoundcloud.com%2Fsomeone"
    );
    assert_eq!(c.listing_url("/me/favorites").unwrap(), "https://api-v2.soundcloud.com/me/favorites?client_id=abc&limit=500");
}

#[test]
fn media_url_always_appends_the_identity() {
    let url = client().media_url("https://api.example.com/tracks/1/stream?client_id=old").unwrap();
    assert_eq!(url, "https://api.example.com/tracks/1/stream?client_id=old&client_id=abc");
}

#[test]
fn authorization_header_value() {
    let mut c = client();
    assert_eq!(c.authorization(), None);
    c.authenticate_with_token("tok".to_string());
    assert_eq!(c.authorization(), Some("OAuth tok".to_string()));
    assert_eq!(c.client_id(), "abc");
    assert_eq!(c.host(), API_HOST);
}

#[test]
fn collection_paths() {
    let c = client();
    assert_eq!(Tracks::new(c.clone(), 5).path(), "/users/5/tracks");
    assert_eq!(Likes::new(c.clone(), 5).path(), "/users/5/favorites");
    assert_eq!(Playlists::new(c.clone(), 5).path(), "/users/5/playlists");
    assert_eq!(Followings::new(c.clone(), 5).path(), "/users/5/followings");
    assert_eq!(Followers::new(c.clone(), 5).path(), "/users/5/followers");
    assert_eq!(WebProfiles::new(c.clone(), 5).path(), "/users/5/web-profiles");
    assert_eq!(TrackLikers::new(c.clone(), 70).path(), "/tracks/70/favoriters");
    assert_eq!(RelatedTracks::new(c.clone(), 70).path(), "/tracks/70/related");
    assert_eq!(Comments::user(c.clone(), 12).path(), "/users/12/comments");
    assert_eq!(Comments::track(c, 13).path(), "/tracks/13/comments");
}

#[test]
fn fetch_starts_at_the_collection_with_its_options() {
    let c = client();
    let mut t = c.user(31506117).tracks().fetch(&PageOptions::default(), Some(1));
    match t.next() {
        Step::Fetch(url) => assert_eq!(
            url,
            "https://api-v2.soundcloud.com/users/31506117/tracks?linked_partitioning=true&page_size=15"
        ),
        _ => panic!("expected a fetch"),
    }
    let mut t = c.track(505512390).comments().fetch(&PageOptions::builder().build(), None);
    match t.next() {
        Step::Fetch(url) => assert_eq!(url, "https://api-v2.soundcloud.com/tracks/505512390/comments"),
        _ => panic!("expected a fetch"),
    }
}

#[test]
fn single_resource_paths() {
    let c = client();
    assert_eq!(c.track(263801976).path(), "/tracks/263801976");
    assert_eq!(c.user(8553751).path(), "/users/8553751");
    assert_eq!(c.playlist(565064082).path(), "/playlists/565064082");
    assert_eq!(c.playlist(565064082).request_url(), "https://api-v2.soundcloud.com/playlists/565064082");
    assert_eq!(c.tracks().id(7).path(), "/tracks/7");
    assert_eq!(c.users().id(8).path(), "/users/8");
    assert_eq!(c.playlists().id(9).path(), "/playlists/9");
}

#[test]
fn filter_text_round_trip() {
    assert_eq!(Filter::All.to_str(), "all");
    assert_eq!(Filter::Public.to_str(), "public");
    assert_eq!(Filter::Private.to_str(), "private");
    assert!(matches!(Filter::from_str("public"), Ok(Filter::Public)));
    assert!(matches!(Filter::parse("private"), Ok(Filter::Private)));
    match Filter::parse("secret") {
        Err(Error::InvalidFilter(s)) => assert_eq!(s, "secret"),
        _ => panic!("expected an invalid filter"),
    }
}

#[test]
fn track_search_params() {
    let c = client();
    let mut b = c.tracks();
    b.query(Some("monstercat"))
        .tags(Some(&["edm", "house"][..]))
        .genres(Some(&["HipHop"][..]))
        .filter(Some(Filter::Public))
        .license(Some("cc-by"))
        .ids(Some(vec![1, 22, 333]));
    let params = b.request_params();
    assert_eq!(
        params,
        vec![
            ("q".to_string(), "monstercat".to_string()),
            ("tags".to_string(), "edm,house".to_string()),
            ("filter".to_string(), "public".to_string()),
            ("ids".to_string(), "1,22,333".to_string()),
            ("genres".to_string(), "HipHop".to_string()),
        ]
    );
    assert!(c.tracks().request_params().is_empty());
}

#[test]
fn user_and_playlist_search_params() {
    let c = client();
    let mut u = c.users();
    u.query(Some("monstercat"));
    assert_eq!(u.request_params(), vec![("q".to_string(), "monstercat".to_string())]);
    assert!(c.users().request_params().is_empty());
    let mut p = c.playlists();
    p.query("monstercat");
    assert_eq!(p.request_params(), vec![("q".to_string(), "monstercat".to_string())]);
}

#[test]
fn permalink_resolution() {
    let c = client();
    assert_eq!(soundcloud::UserRequestBuilder::permalink_url("djmaksgermany"), "https://soundcloud.com/djmaksgermany");
    let users = c.users();
    let user = users.resolved("https://api.soundcloud.com/users/31506117").unwrap();
    assert_eq!(user.id, 31506117);
    assert!(matches!(users.resolved("https://api.soundcloud.com/users/me"), Err(Error::ApiError(_))));
    assert!(matches!(users.resolved("nowhere"), Err(Error::InvalidUrl)));
}

#[test]
fn stream_and_download_sources() {
    let c = client();
    let mut track = sample_track();
    assert!(matches!(c.stream_source(&track), Err(Error::TrackNotStreamable)));
    assert!(matches!(c.download_source(&track), Err(Error::TrackNotDownloadable)));
    track.streamable = true;
    track.stream_url = Some("https://api.example.com/tracks/1/stream".to_string());
    assert_eq!(c.stream_source(&track).unwrap(), "https://api.example.com/tracks/1/stream?client_id=abc");
    track.downloadable = true;
    assert!(matches!(c.download_source(&track), Err(Error::ApiError(_))));
}

#[test]
fn tracks_are_equal_by_id() {
    let a = sample_track();
    let mut b = sample_track();
    b.title = "other".to_string();
    assert!(a == b);
    b.id = 2;
    assert!(a != b);
}

#[test]
fn playlist_type_defaults_to_playlist() {
    assert_eq!(PlaylistType::default(), PlaylistType::Playlist);
}

#[test]
fn decimals() {
    assert_eq!(to_decimal(0), "0");
    assert_eq!(to_decimal(18446744073709551615), "18446744073709551615");
    assert_eq!(parse_decimal("0042"), Some(42));
    assert_eq!(parse_decimal(""), None);
    assert_eq!(parse_decimal("4x"), None);
    assert_eq!(parse_decimal("99999999999999999999"), None);
}

fn sample_track() -> soundcloud::Track {
    soundcloud::Track {
        id: 1,
        created_at: String::new(),
        user: soundcloud::User {
            id: 1,
            permalink: String::new(),
            username: String::new(),
            uri: String::new(),
            permalink_url: String::new(),
            avatar_url: String::new(),
            country: None,
            full_name: None,
            city: None,
            description: None,
            discogs_name: None,
            myspace_name: None,
            website: None,
            website_title: None,
            online: None,
            track_count: None,
            playlist_count: None,
            followers_count: None,
            followings_count: None,
            public_favorites_count: None,
        },
        title: "t".to_string(),
        permalink_url: String::new(),
        uri: String::new(),
        sharing: String::new(),
        purchase_url: None,
        artwork_url: None,
        description: None,
        duration: 0,
        genre: None,
        tags: None,
        label_name: None,
        release: None,
        release_day: None,
        release_month: None,
        release_year: None,
        streamable: false,
        downloadable: false,
        purchase_title: None,
        license: String::new(),
        waveform_url: String::new(),
        download_url: None,
        stream_url: None,
        bpm: None,
        commentable: false,
        isrc: None,
        key_signature: None,
        comment_count: None,
        download_count: None,
        playback_count: None,
        favoritings_count: None,
        created_with: None,
        asset_data: None,
        artwork_data: None,
        user_favorite: None,
    }
}
