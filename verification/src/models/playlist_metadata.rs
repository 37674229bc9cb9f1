//! Metadata of an ordered playlist of tracks.

use std::collections::VecDeque;
use vstd::prelude::*;
use vstd::string::StringExecFns;

use crate::models::video_metadata::VideoMetadata;
use crate::models::youtube::PlaylistData;
use crate::models::youtube::YoutubeError;
use crate::models::youtube::best_thumbnail;
use crate::models::youtube::decode_html;
use crate::models::youtube::html_decoded;
use crate::models::youtube::pick_thumbnail;

verus! {

/// The canonical playlist URL every playlist's locator is built from.
pub open spec fn playlist_uri() -> Seq<char> {
    "https://youtube.com/playlist?list="@
}

/// A playlist lookup result has everything the metadata needs: identifier,
/// title, channel, and at least one thumbnail.
pub open spec fn playlist_fields_present(p: PlaylistData) -> bool {
    &&& p.id is Some
    &&& p.title is Some
    &&& p.channel_title is Some
    &&& best_thumbnail(p.thumbnails) is Some
}

/// Metadata of a playlist. `items` holds the remaining unplayed tracks in
/// order; it is mutated only by removing its front item as tracks are
/// consumed. The descriptive fields are never mutated after creation.
#[derive(Debug)]
pub struct PlaylistMetadata {
    pub id: String,
    pub title: String,
    pub channel: String,
    pub url: String,
    pub thumbnail_url: String,
    pub items: VecDeque<VideoMetadata>,
}

/// The abstract value of a [`PlaylistMetadata`]: the same fields, with the
/// remaining items as a mathematical sequence.
pub struct PlaylistMetadataView {
    pub id: String,
    pub title: String,
    pub channel: String,
    pub url: String,
    pub thumbnail_url: String,
    pub items: Seq<VideoMetadata>,
}

impl View for PlaylistMetadata {
    type V = PlaylistMetadataView;

    open spec fn view(&self) -> PlaylistMetadataView {
        PlaylistMetadataView {
            id: self.id,
            title: self.title,
            channel: self.channel,
            url: self.url,
            thumbnail_url: self.thumbnail_url,
            items: self.items@,
        }
    }
}

/// Two playlists that differ only in their remaining items: `next` is `prev`
/// after the front item was consumed.
pub open spec fn playlist_front_consumed(
    prev: PlaylistMetadataView,
    next: PlaylistMetadataView,
) -> bool {
    &&& next.id == prev.id
    &&& next.title == prev.title
    &&& next.channel == prev.channel
    &&& next.url == prev.url
    &&& next.thumbnail_url == prev.thumbnail_url
    &&& next.items == prev.items.drop_first()
}

impl PlaylistMetadata {
    /// Turn a playlist lookup result (a playlist record or a search hit) into
    /// playlist metadata with no items yet: the items arrive from a separate
    /// lookup and are attached with [`Self::extend_items`]. A result with a
    /// missing field cannot be converted; otherwise every descriptive field
    /// is taken over with its HTML character references decoded, and the
    /// locator is the canonical playlist URL of the identifier.
    pub fn from_playlist_data(p: &PlaylistData) -> (r: Result<PlaylistMetadata, YoutubeError>)
        ensures
            !playlist_fields_present(*p) ==> r matches Err(YoutubeError::ConversionError),
            playlist_fields_present(*p) ==> (r matches Ok(m) && {
                &&& p.id matches Some(id) && m.id == id && m.url@ == playlist_uri() + id@
                &&& p.title matches Some(t) && m.title@ == html_decoded(t@)
                &&& p.channel_title matches Some(c) && m.channel@ == html_decoded(c@)
                &&& best_thumbnail(p.thumbnails) matches Some(th) && m.thumbnail_url == th
                &&& m@.items == Seq::<VideoMetadata>::empty()
            }),
    {
        let thumbnail = pick_thumbnail(&p.thumbnails);
        match (&p.id, &p.title, &p.channel_title, thumbnail) {
            (Some(id), Some(title), Some(channel), Some(thumbnail_url)) => {
                let mut url = String::from_str("https://youtube.com/playlist?list=");
                url.append(id.as_str());
                let m = PlaylistMetadata {
                    id: id.clone(),
                    title: decode_html(title.as_str()),
                    channel: decode_html(channel.as_str()),
                    url,
                    thumbnail_url,
                    items: VecDeque::new(),
                };
                proof {
                    assert(m@.items =~= Seq::<VideoMetadata>::empty());
                }
                Ok(m)
            },
            _ => Err(YoutubeError::ConversionError),
        }
    }

    /// Append the tracks of a separate items lookup, in order, after whatever
    /// items the playlist already holds.
    pub fn extend_items(&mut self, items: &Vec<VideoMetadata>)
        ensures
            final(self)@ == (PlaylistMetadataView {
                items: old(self)@.items + items@,
                ..old(self)@
            }),
    {
        let mut i: usize = 0;
        proof {
            assert(self@.items =~= old(self)@.items + items@.take(0));
        }
        while i < items.len()
            invariant
                i <= items@.len(),
                self.id == old(self).id,
                self.title == old(self).title,
                self.channel == old(self).channel,
                self.url == old(self).url,
                self.thumbnail_url == old(self).thumbnail_url,
                self.items@ == old(self)@.items + items@.take(i as int),
            decreases items@.len() - i,
        {
            self.items.push_back(items[i].clone());
            proof {
                assert(self.items@ =~= old(self)@.items + items@.take(i + 1 as int));
            }
            i = i + 1;
        }
        proof {
            assert(items@.take(items@.len() as int) =~= items@);
        }
    }
}

impl Clone for PlaylistMetadata {
    fn clone(&self) -> (res: Self)
        ensures
            res@ == self@,
    {
        let items = self.items.clone();
        proof {
            assert forall|i: int| 0 <= i < self.items@.len() implies items@[i]
                == self.items@[i] by {
                assert(cloned::<VideoMetadata>(self.items@[i], items@[i]));
            }
            assert(items@ =~= self.items@);
        }
        PlaylistMetadata {
            id: self.id.clone(),
            title: self.title.clone(),
            channel: self.channel.clone(),
            url: self.url.clone(),
            thumbnail_url: self.thumbnail_url.clone(),
            items,
        }
    }
}

} // verus!
