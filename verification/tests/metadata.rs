use luna_rs::models::playlist_metadata::PlaylistMetadata;
use luna_rs::models::queue_element::QueueElement;
use luna_rs::models::video_metadata::VideoMetadata;
use luna_rs::models::youtube::ParsedUrl;
use luna_rs::models::youtube::PlaylistData;
use luna_rs::models::youtube::PlaylistItemData;
use luna_rs::models::youtube::ThumbnailSet;
use luna_rs::models::youtube::UrlResource;
use luna_rs::models::youtube::VideoData;
use luna_rs::models::youtube::YoutubeError;
use luna_rs::models::youtube::YoutubeMetadata;
use luna_rs::models::youtube::classify_parsed;
use luna_rs::models::youtube::extract_playlist_id_from_standard_url;
use luna_rs::models::youtube::extract_track_id_from_shareable_url;
use luna_rs::models::youtube::extract_track_id_from_standard_url;
use luna_rs::models::youtube::process_url;
use luna_rs::models::youtube::validate_standard_url;

fn no_thumbs() -> ThumbnailSet {
    ThumbnailSet { maxres: None, high: None, medium: None, standard: None, fallback: None }
}

fn video(id: &str, title: &str, channel: &str) -> VideoData {
    VideoData {
        id: Some(id.to_string()),
        title: Some(title.to_string()),
        channel_title: Some(channel.to_string()),
        live_broadcast_content: Some("none".to_string()),
        thumbnails: ThumbnailSet { high: Some("https://img.example/hi.jpg".to_string()), ..no_thumbs() },
    }
}

#[test]
fn video_conversion_decodes_html_and_builds_the_url() {
    let v = video("dQw4w9WgXcQ", "Tom &amp; Jerry", "A &lt;b&gt; channel");
    let m = VideoMetadata::from_video_data(&v).expect("complete record converts");
    assert_eq!(m.id, "dQw4w9WgXcQ");
    assert_eq!(m.title, "Tom & Jerry");
    assert_eq!(m.channel, "A <b> channel");
    assert_eq!(m.url, "https://youtube.com/watch?v=dQw4w9WgXcQ");
    assert_eq!(m.thumbnail_url, "https://img.example/hi.jpg");
}

#[test]
fn live_broadcasts_are_unsupported() {
    let mut v = video("id", "t", "c");
    v.live_broadcast_content = Some("live".to_string());
    match VideoMetadata::from_video_data(&v) {
        Err(YoutubeError::UnsupportedError(m)) => {
            assert_eq!(m, "Live streams are not support yet.")
        },
        other => panic!("expected the unsupported error, got {other:?}"),
    }
    // an absent broadcast flag means a plain video
    v.live_broadcast_content = None;
    assert!(VideoMetadata::from_video_data(&v).is_ok());
}

#[test]
fn missing_fields_fail_the_conversion() {
    let mut v = video("id", "t", "c");
    v.title = None;
    assert!(matches!(VideoMetadata::from_video_data(&v), Err(YoutubeError::ConversionError)));
    let mut v = video("id", "t", "c");
    v.thumbnails = no_thumbs();
    assert!(matches!(VideoMetadata::from_video_data(&v), Err(YoutubeError::ConversionError)));
}

#[test]
fn thumbnail_priority_prefers_the_largest() {
    let mut v = video("id", "t", "c");
    v.thumbnails = ThumbnailSet {
        maxres: Some("max".to_string()),
        high: Some("high".to_string()),
        medium: Some("med".to_string()),
        standard: Some("std".to_string()),
        fallback: Some("fb".to_string()),
    };
    assert_eq!(VideoMetadata::from_video_data(&v).unwrap().thumbnail_url, "max");
    v.thumbnails = ThumbnailSet { fallback: Some("fb".to_string()), ..no_thumbs() };
    assert_eq!(VideoMetadata::from_video_data(&v).unwrap().thumbnail_url, "fb");
}

#[test]
fn playlist_item_conversion_uses_the_owner_channel() {
    let item = PlaylistItemData {
        video_id: Some("vvvvvvvvvvv".to_string()),
        title: Some("Song &quot;A&quot;".to_string()),
        video_owner_channel_title: Some("Owner".to_string()),
        thumbnails: ThumbnailSet { medium: Some("med".to_string()), ..no_thumbs() },
    };
    let m = VideoMetadata::from_playlist_item(&item).expect("complete item converts");
    assert_eq!(m.title, "Song \"A\"");
    assert_eq!(m.channel, "Owner");
    assert_eq!(m.url, "https://youtube.com/watch?v=vvvvvvvvvvv");

    let bad = PlaylistItemData { video_id: None, ..item };
    assert!(matches!(VideoMetadata::from_playlist_item(&bad), Err(YoutubeError::ConversionError)));
}

#[test]
fn playlist_conversion_starts_empty_and_extends_in_order() {
    let p = PlaylistData {
        id: Some("PLxyz".to_string()),
        title: Some("Mix &amp; Match".to_string()),
        channel_title: Some("Lists".to_string()),
        thumbnails: ThumbnailSet { standard: Some("std".to_string()), ..no_thumbs() },
    };
    let mut m = PlaylistMetadata::from_playlist_data(&p).expect("complete record converts");
    assert_eq!(m.title, "Mix & Match");
    assert_eq!(m.url, "https://youtube.com/playlist?list=PLxyz");
    assert!(m.items.is_empty());

    let tracks = vec![
        VideoMetadata {
            id: "a".to_string(),
            title: "a".to_string(),
            channel: "c".to_string(),
            url: "u".to_string(),
            thumbnail_url: "t".to_string(),
        },
        VideoMetadata {
            id: "b".to_string(),
            title: "b".to_string(),
            channel: "c".to_string(),
            url: "u".to_string(),
            thumbnail_url: "t".to_string(),
        },
    ];
    m.extend_items(&tracks);
    assert_eq!(m.items.len(), 2);
    assert_eq!(m.items[0].id, "a");
    assert_eq!(m.items[1].id, "b");
}

#[test]
fn queue_element_from_metadata_keeps_the_kind() {
    let v = video("id", "t", "c");
    let m = VideoMetadata::from_video_data(&v).unwrap();
    match QueueElement::from(YoutubeMetadata::Track(m)) {
        QueueElement::Track(t) => assert_eq!(t.id, "id"),
        other => panic!("unexpected {other:?}"),
    }
}

#[test]
fn process_url_recognizes_standard_watch_urls() {
    match process_url("https://www.youtube.com/watch?v=dQw4w9WgXcQ") {
        Ok(UrlResource::Video(id)) => assert_eq!(id, "dQw4w9WgXcQ"),
        other => panic!("unexpected {other:?}"),
    }
    // the identifier must be exactly eleven characters
    assert!(matches!(
        process_url("https://www.youtube.com/watch?v=short"),
        Err(YoutubeError::UrlError)
    ));
}

#[test]
fn process_url_recognizes_standard_playlist_urls() {
    let url = "https://www.youtube.com/playlist?list=PLabcdefghijklmnopqrstuvwxyz012345";
    match process_url(url) {
        Ok(UrlResource::Playlist(id)) => {
            assert_eq!(id, "PLabcdefghijklmnopqrstuvwxyz012345");
            assert_eq!(id.len(), 34);
        },
        other => panic!("unexpected {other:?}"),
    }
    // a playlist identifier must begin with PL
    assert!(matches!(
        process_url("https://www.youtube.com/playlist?list=QQabcdefghijklmnopqrstuvwxyz012345"),
        Err(YoutubeError::UrlError)
    ));
}

#[test]
fn process_url_recognizes_shareable_urls() {
    match process_url("https://www.youtu.be/dQw4w9WgXcQ") {
        Ok(UrlResource::Video(id)) => assert_eq!(id, "dQw4w9WgXcQ"),
        other => panic!("unexpected {other:?}"),
    }
    assert!(matches!(process_url("https://www.youtu.be/tiny"), Err(YoutubeError::UrlError)));
}

#[test]
fn process_url_rejects_everything_else() {
    assert!(matches!(process_url("not a url at all"), Err(YoutubeError::UrlError)));
    assert!(matches!(
        process_url("https://example.com/watch?v=dQw4w9WgXcQ"),
        Err(YoutubeError::UrlError)
    ));
    assert!(matches!(
        process_url("https://www.youtube.com/browse?v=dQw4w9WgXcQ"),
        Err(YoutubeError::UrlError)
    ));
}

#[test]
fn classification_works_on_hand_built_parts() {
    let u = ParsedUrl {
        domain: Some("www.youtube.com".to_string()),
        path: "/watch".to_string(),
        query: vec![
            ("t".to_string(), "42".to_string()),
            ("v".to_string(), "dQw4w9WgXcQ".to_string()),
        ],
    };
    assert!(validate_standard_url(&u));
    assert_eq!(extract_track_id_from_standard_url(&u).unwrap(), "dQw4w9WgXcQ");
    assert!(extract_playlist_id_from_standard_url(&u).is_none());
    match classify_parsed(&u) {
        Ok(UrlResource::Video(id)) => assert_eq!(id, "dQw4w9WgXcQ"),
        other => panic!("unexpected {other:?}"),
    }

    let share = ParsedUrl {
        domain: Some("www.youtu.be".to_string()),
        path: "/dQw4w9WgXcQ".to_string(),
        query: Vec::new(),
    };
    assert_eq!(extract_track_id_from_shareable_url(&share).unwrap(), "dQw4w9WgXcQ");
    match classify_parsed(&share) {
        Ok(UrlResource::Video(id)) => assert_eq!(id, "dQw4w9WgXcQ"),
        other => panic!("unexpected {other:?}"),
    }
}
