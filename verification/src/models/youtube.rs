//! Resolved metadata values, the inputs of metadata conversion, URL
//! classification, and the errors of metadata resolution.
//!
//! The external lookup service answers with records whose every field may be
//! missing; the shell copies what the logic reads into the plain data types
//! here, and the verified conversion functions decide what is playable.

use vstd::prelude::*;
use vstd::string::StrSliceExecFns;
use vstd::string::StringExecFns;

use crate::models::playlist_metadata::PlaylistMetadata;
use crate::models::video_metadata::VideoMetadata;

verus! {

/// What a metadata lookup resolved to: a single track or a playlist.
#[derive(Debug)]
pub enum YoutubeMetadata {
    Track(VideoMetadata),
    Playlist(PlaylistMetadata),
}

/// Errors of metadata resolution.
#[derive(Debug)]
pub enum YoutubeError {
    /// The lookup result lacked a field the metadata needs.
    ConversionError,
    /// The requested resource does not exist.
    NotFoundError,
    /// The lookup service itself failed; the message describes how.
    ApiError(String),
    /// The given text is not a recognized resource URL.
    UrlError,
    /// The resource exists but cannot be played; the message says why.
    UnsupportedError(String),
}

impl YoutubeError {
    /// The user-facing message for this error.
    pub fn message(&self) -> (r: String)
        ensures
            match self {
                YoutubeError::ConversionError => r@
                    == "Failed to extract video information from results."@,
                YoutubeError::NotFoundError => r@ == "Requested resource not found."@,
                YoutubeError::ApiError(m) => r@ == m@,
                YoutubeError::UrlError => r@ == "Invalid Youtube URL provided."@,
                YoutubeError::UnsupportedError(m) => r@ == m@,
            },
    {
        match self {
            YoutubeError::ConversionError => String::from_str(
                "Failed to extract video information from results.",
            ),
            YoutubeError::NotFoundError => String::from_str("Requested resource not found."),
            YoutubeError::ApiError(m) => m.clone(),
            YoutubeError::UrlError => String::from_str("Invalid Youtube URL provided."),
            YoutubeError::UnsupportedError(m) => m.clone(),
        }
    }
}

/// The thumbnails a lookup result offers, each an optional image URL, from
/// the largest resolution down to the service's default.
#[derive(Debug)]
pub struct ThumbnailSet {
    pub maxres: Option<String>,
    pub high: Option<String>,
    pub medium: Option<String>,
    pub standard: Option<String>,
    pub fallback: Option<String>,
}

/// The best thumbnail on offer: the highest-resolution one present.
pub open spec fn best_thumbnail(t: ThumbnailSet) -> Option<String> {
    if t.maxres is Some {
        t.maxres
    } else if t.high is Some {
        t.high
    } else if t.medium is Some {
        t.medium
    } else if t.standard is Some {
        t.standard
    } else {
        t.fallback
    }
}

/// Pick the best thumbnail on offer.
pub fn pick_thumbnail(t: &ThumbnailSet) -> (r: Option<String>)
    ensures
        r == best_thumbnail(*t),
{
    match &t.maxres {
        Some(s) => Some(s.clone()),
        None => match &t.high {
            Some(s) => Some(s.clone()),
            None => match &t.medium {
                Some(s) => Some(s.clone()),
                None => match &t.standard {
                    Some(s) => Some(s.clone()),
                    None => match &t.fallback {
                        Some(s) => Some(s.clone()),
                        None => None,
                    },
                },
            },
        },
    }
}

/// What a track lookup (a video record or a search result) carries of one
/// video, every field as the service may or may not have sent it.
#[derive(Debug)]
pub struct VideoData {
    pub id: Option<String>,
    pub title: Option<String>,
    pub channel_title: Option<String>,
    pub live_broadcast_content: Option<String>,
    pub thumbnails: ThumbnailSet,
}

/// What a playlist-item lookup carries of one video.
#[derive(Debug)]
pub struct PlaylistItemData {
    pub video_id: Option<String>,
    pub title: Option<String>,
    pub video_owner_channel_title: Option<String>,
    pub thumbnails: ThumbnailSet,
}

/// What a playlist lookup (a playlist record or a search result) carries of
/// the playlist itself; its items arrive separately.
#[derive(Debug)]
pub struct PlaylistData {
    pub id: Option<String>,
    pub title: Option<String>,
    pub channel_title: Option<String>,
    pub thumbnails: ThumbnailSet,
}

/// A video record that declares itself live or upcoming (anything but the
/// plain "none") cannot be streamed as a track.
pub open spec fn is_live(v: VideoData) -> bool {
    v.live_broadcast_content matches Some(s) && s@ != "none"@
}

/// Whether two string slices hold the same characters.
pub(crate) fn str_eq(a: &str, b: &str) -> (r: bool)
    ensures
        r == (a@ == b@),
{
    let a_owned = a.to_owned();
    let b_owned = b.to_owned();
    a_owned == b_owned
}

/// The result of decoding the HTML character references in a text: a function
/// of the text alone.
pub uninterp spec fn html_decoded(s: Seq<char>) -> Seq<char>;

/// Relies on html_escape::decode_html_entities: decodes the exact named and
/// numeric HTML character references in the text, a pure function of the
/// text.
#[verifier::external_body]
pub(crate) fn decode_html(s: &str) -> (r: String)
    ensures
        r@ == html_decoded(s@),
{
    html_escape::decode_html_entities(s).to_string()
}

/// An absolute URL, split into the parts the classification reads: the host
/// domain (absent for addresses), the path, and the decoded query pairs.
#[derive(Debug)]
pub struct ParsedUrl {
    pub domain: Option<String>,
    pub path: String,
    pub query: Vec<(String, String)>,
}

/// What parsing a URL yields: a function of the text alone, `None` where the
/// text is no absolute URL.
pub uninterp spec fn url_parse(s: Seq<char>) -> Option<ParsedUrl>;

/// Relies on url::Url::parse, and on Url::domain, Url::path and
/// Url::query_pairs reading the parsed value: splits an absolute URL into
/// domain, path and decoded query pairs, a pure function of the text.
#[verifier::external_body]
fn parse_url(s: &str) -> (r: Option<ParsedUrl>)
    ensures
        r == url_parse(s@),
{
    match url::Url::parse(s) {
        Ok(u) => Some(ParsedUrl {
            domain: u.domain().map(|d| d.to_string()),
            path: u.path().to_string(),
            query: u.query_pairs().map(|(k, v)| (k.into_owned(), v.into_owned())).collect(),
        }),
        Err(_) => None,
    }
}

/// The value of the first query pair with the given key, if any.
pub open spec fn spec_query_value(q: Seq<(String, String)>, key: Seq<char>) -> Option<String>
    decreases q.len(),
{
    if q.len() == 0 {
        None
    } else if q.first().0@ == key {
        Some(q.first().1)
    } else {
        spec_query_value(q.drop_first(), key)
    }
}

/// Find the value of the first query pair with the given key.
fn query_value(q: &Vec<(String, String)>, key: &str) -> (r: Option<String>)
    ensures
        r == spec_query_value(q@, key@),
{
    let mut i: usize = 0;
    proof {
        assert(q@.skip(0) =~= q@);
    }
    while i < q.len()
        invariant
            i <= q@.len(),
            spec_query_value(q@, key@) == spec_query_value(q@.skip(i as int), key@),
        decreases q@.len() - i,
    {
        proof {
            assert(q@.skip(i as int).first() == q@[i as int]);
            assert(q@.skip(i as int).drop_first() =~= q@.skip(i + 1 as int));
        }
        if str_eq(q[i].0.as_str(), key) {
            return Some(q[i].1.clone());
        }
        i = i + 1;
    }
    proof {
        assert(q@.skip(q@.len() as int) =~= Seq::<(String, String)>::empty());
    }
    None
}

/// The track identifier a standard watch URL carries: the value of the `v`
/// query parameter, which must be exactly eleven characters.
pub open spec fn spec_track_id(q: Seq<(String, String)>) -> Option<String> {
    match spec_query_value(q, "v"@) {
        Some(arg) => if arg@.len() == 11 {
            Some(arg)
        } else {
            None
        },
        None => None,
    }
}

/// The playlist identifier a standard playlist URL carries: the value of the
/// `list` query parameter, which must be thirty-four characters beginning
/// with `PL`.
pub open spec fn spec_playlist_id(q: Seq<(String, String)>) -> Option<String> {
    match spec_query_value(q, "list"@) {
        Some(arg) => if arg@.len() == 34 && arg@.first() == 'P' && arg@[1] == 'L' {
            Some(arg)
        } else {
            None
        },
        None => None,
    }
}

/// Extract the track identifier from a standard watch URL's query.
pub fn extract_track_id_from_standard_url(u: &ParsedUrl) -> (r: Option<String>)
    ensures
        r == spec_track_id(u.query@),
{
    match query_value(&u.query, "v") {
        Some(arg) => {
            if arg.as_str().unicode_len() == 11 {
                Some(arg)
            } else {
                None
            }
        },
        None => None,
    }
}

/// Extract the playlist identifier from a standard playlist URL's query.
pub fn extract_playlist_id_from_standard_url(u: &ParsedUrl) -> (r: Option<String>)
    ensures
        r == spec_playlist_id(u.query@),
{
    match query_value(&u.query, "list") {
        Some(arg) => {
            if arg.as_str().unicode_len() == 34 {
                let first = arg.as_str().get_char(0);
                let second = arg.as_str().get_char(1);
                if first == 'P' && second == 'L' {
                    Some(arg)
                } else {
                    None
                }
            } else {
                None
            }
        },
        None => None,
    }
}

/// A shareable short URL carries its track identifier as the whole path
/// after the leading slash, again exactly eleven characters.
pub open spec fn shareable_id_present(u: ParsedUrl) -> bool {
    u.path@.len() == 12
}

/// Extract the track identifier from a shareable short URL's path.
pub fn extract_track_id_from_shareable_url(u: &ParsedUrl) -> (r: Option<String>)
    ensures
        shareable_id_present(*u) <==> r is Some,
        r matches Some(id) ==> id@ == u.path@.skip(1),
{
    if u.path.as_str().unicode_len() == 12 {
        let id = u.path.as_str().substring_char(1, 12).to_owned();
        proof {
            assert(id@ =~= u.path@.skip(1));
        }
        Some(id)
    } else {
        None
    }
}

/// A standard URL is valid when its path and query agree: a watch path with
/// a track identifier, or a playlist path with a playlist identifier.
pub open spec fn spec_validate_standard(u: ParsedUrl) -> bool {
    if u.path@ == "/watch"@ {
        spec_track_id(u.query@) is Some
    } else if u.path@ == "/playlist"@ {
        spec_playlist_id(u.query@) is Some
    } else {
        false
    }
}

/// Check that a standard URL's path and query agree.
pub fn validate_standard_url(u: &ParsedUrl) -> (r: bool)
    ensures
        r == spec_validate_standard(*u),
{
    if str_eq(u.path.as_str(), "/watch") {
        extract_track_id_from_standard_url(u).is_some()
    } else if str_eq(u.path.as_str(), "/playlist") {
        extract_playlist_id_from_standard_url(u).is_some()
    } else {
        false
    }
}

/// What a URL asks to play: one video, or a whole playlist, each by its
/// identifier. The shell then fetches the metadata behind the identifier.
#[derive(Debug)]
pub enum UrlResource {
    Video(String),
    Playlist(String),
}

/// The parsed URL names the standard host and is a valid standard URL.
pub open spec fn standard_url(u: ParsedUrl) -> bool {
    &&& u.domain matches Some(d) && d@ == "www.youtube.com"@
    &&& spec_validate_standard(u)
}

/// The parsed URL names the short-link host and carries a track identifier.
pub open spec fn shareable_url(u: ParsedUrl) -> bool {
    &&& u.domain matches Some(d) && d@ == "www.youtu.be"@
    &&& shareable_id_present(u)
}

/// What classification promises of its result, given the parsed URL: on a
/// standard URL the track identifier wins over the playlist identifier; on a
/// shareable URL the path yields the track; anything else is rejected.
pub open spec fn classification_ok(u: ParsedUrl, r: Result<UrlResource, YoutubeError>) -> bool {
    if standard_url(u) {
        match spec_track_id(u.query@) {
            Some(id) => r == Result::<UrlResource, YoutubeError>::Ok(UrlResource::Video(id)),
            None => match spec_playlist_id(u.query@) {
                Some(id) => r == Result::<UrlResource, YoutubeError>::Ok(
                    UrlResource::Playlist(id),
                ),
                None => r matches Err(YoutubeError::UrlError),
            },
        }
    } else if shareable_url(u) {
        r matches Ok(UrlResource::Video(id)) && id@ == u.path@.skip(1)
    } else {
        r matches Err(YoutubeError::UrlError)
    }
}

/// Classify an already-parsed URL.
pub fn classify_parsed(u: &ParsedUrl) -> (r: Result<UrlResource, YoutubeError>)
    ensures
        classification_ok(*u, r),
{
    let domain_standard = match &u.domain {
        Some(d) => str_eq(d.as_str(), "www.youtube.com"),
        None => false,
    };
    let domain_shareable = match &u.domain {
        Some(d) => str_eq(d.as_str(), "www.youtu.be"),
        None => false,
    };
    if domain_standard && validate_standard_url(u) {
        match extract_track_id_from_standard_url(u) {
            Some(id) => Ok(UrlResource::Video(id)),
            None => match extract_playlist_id_from_standard_url(u) {
                Some(id) => Ok(UrlResource::Playlist(id)),
                None => Err(YoutubeError::UrlError),
            },
        }
    } else if domain_shareable {
        match extract_track_id_from_shareable_url(u) {
            Some(id) => Ok(UrlResource::Video(id)),
            None => Err(YoutubeError::UrlError),
        }
    } else {
        Err(YoutubeError::UrlError)
    }
}

/// Classify a URL: decide whether it asks for a video or a playlist, and
/// extract the identifier the metadata lookup needs. Exactly the recognized
/// URL shapes succeed; everything else is [`YoutubeError::UrlError`].
pub fn process_url(url: &str) -> (r: Result<UrlResource, YoutubeError>)
    ensures
        match url_parse(url@) {
            Some(u) => classification_ok(u, r),
            None => r matches Err(YoutubeError::UrlError),
        },
{
    match parse_url(url) {
        Some(u) => classify_parsed(&u),
        None => Err(YoutubeError::UrlError),
    }
}

} // verus!
