//! Immutable metadata of a single playable track.

use vstd::prelude::*;
use vstd::string::StringExecFns;

use crate::models::youtube::PlaylistItemData;
use crate::models::youtube::VideoData;
use crate::models::youtube::YoutubeError;
use crate::models::youtube::best_thumbnail;
use crate::models::youtube::decode_html;
use crate::models::youtube::html_decoded;
use crate::models::youtube::is_live;
use crate::models::youtube::pick_thumbnail;
use crate::models::youtube::str_eq;

verus! {

/// The canonical watch URL every track's locator is built from.
pub open spec fn single_uri() -> Seq<char> {
    "https://youtube.com/watch?v="@
}

/// A video lookup result has everything a track needs: identifier, title,
/// channel, and at least one thumbnail.
pub open spec fn video_fields_present(v: VideoData) -> bool {
    &&& v.id is Some
    &&& v.title is Some
    &&& v.channel_title is Some
    &&& best_thumbnail(v.thumbnails) is Some
}

/// A playlist-item lookup result has everything a track needs.
pub open spec fn playlist_item_fields_present(v: PlaylistItemData) -> bool {
    &&& v.video_id is Some
    &&& v.title is Some
    &&& v.video_owner_channel_title is Some
    &&& best_thumbnail(v.thumbnails) is Some
}

/// Metadata of one playable track. Never mutated after creation.
#[derive(Debug)]
pub struct VideoMetadata {
    pub id: String,
    pub title: String,
    pub channel: String,
    pub url: String,
    pub thumbnail_url: String,
}

impl VideoMetadata {
    /// Turn a video lookup result (a video record or a search hit) into track
    /// metadata. A live or upcoming broadcast is unsupported; a result with a
    /// missing field cannot be converted; otherwise every descriptive field
    /// is taken over with its HTML character references decoded, and the
    /// locator is the canonical watch URL of the identifier.
    pub fn from_video_data(v: &VideoData) -> (r: Result<VideoMetadata, YoutubeError>)
        ensures
            is_live(*v) ==> (r matches Err(YoutubeError::UnsupportedError(m)) && m@
                == "Live streams are not support yet."@),
            !is_live(*v) && !video_fields_present(*v) ==> r matches Err(
                YoutubeError::ConversionError,
            ),
            !is_live(*v) && video_fields_present(*v) ==> (r matches Ok(m) && {
                &&& v.id matches Some(id) && m.id == id && m.url@ == single_uri() + id@
                &&& v.title matches Some(t) && m.title@ == html_decoded(t@)
                &&& v.channel_title matches Some(c) && m.channel@ == html_decoded(c@)
                &&& best_thumbnail(v.thumbnails) matches Some(th) && m.thumbnail_url == th
            }),
    {
        let live = match &v.live_broadcast_content {
            Some(s) => !str_eq(s.as_str(), "none"),
            None => false,
        };
        if live {
            return Err(
                YoutubeError::UnsupportedError(
                    String::from_str("Live streams are not support yet."),
                ),
            );
        }
        let thumbnail = pick_thumbnail(&v.thumbnails);
        match (&v.id, &v.title, &v.channel_title, thumbnail) {
            (Some(id), Some(title), Some(channel), Some(thumbnail_url)) => {
                let mut url = String::from_str("https://youtube.com/watch?v=");
                url.append(id.as_str());
                Ok(
                    VideoMetadata {
                        id: id.clone(),
                        title: decode_html(title.as_str()),
                        channel: decode_html(channel.as_str()),
                        url,
                        thumbnail_url,
                    },
                )
            },
            _ => Err(YoutubeError::ConversionError),
        }
    }

    /// Turn a playlist-item lookup result into track metadata, exactly as
    /// [`Self::from_video_data`] does for a video, with the item's owning
    /// channel as the track's channel. Playlist items carry no broadcast
    /// flag, so there is no liveness check.
    pub fn from_playlist_item(v: &PlaylistItemData) -> (r: Result<VideoMetadata, YoutubeError>)
        ensures
            !playlist_item_fields_present(*v) ==> r matches Err(YoutubeError::ConversionError),
            playlist_item_fields_present(*v) ==> (r matches Ok(m) && {
                &&& v.video_id matches Some(id) && m.id == id && m.url@ == single_uri() + id@
                &&& v.title matches Some(t) && m.title@ == html_decoded(t@)
                &&& v.video_owner_channel_title matches Some(c) && m.channel@ == html_decoded(c@)
                &&& best_thumbnail(v.thumbnails) matches Some(th) && m.thumbnail_url == th
            }),
    {
        let thumbnail = pick_thumbnail(&v.thumbnails);
        match (&v.video_id, &v.title, &v.video_owner_channel_title, thumbnail) {
            (Some(id), Some(title), Some(channel), Some(thumbnail_url)) => {
                let mut url = String::from_str("https://youtube.com/watch?v=");
                url.append(id.as_str());
                Ok(
                    VideoMetadata {
                        id: id.clone(),
                        title: decode_html(title.as_str()),
                        channel: decode_html(channel.as_str()),
                        url,
                        thumbnail_url,
                    },
                )
            },
            _ => Err(YoutubeError::ConversionError),
        }
    }
}

impl Clone for VideoMetadata {
    fn clone(&self) -> (res: Self)
        ensures
            res == *self,
    {
        VideoMetadata {
            id: self.id.clone(),
            title: self.title.clone(),
            channel: self.channel.clone(),
            url: self.url.clone(),
            thumbnail_url: self.thumbnail_url.clone(),
        }
    }
}

} // verus!
