//! The unit stored in a session's queue: a single track or a playlist.

use vstd::prelude::*;

use crate::models::playlist_metadata::PlaylistMetadata;
use crate::models::playlist_metadata::PlaylistMetadataView;
use crate::models::video_metadata::VideoMetadata;
use crate::models::youtube::YoutubeMetadata;

verus! {

/// A queueable element: one track, or an ordered playlist of tracks.
#[derive(Debug)]
pub enum QueueElement {
    Track(VideoMetadata),
    Playlist(PlaylistMetadata),
}

/// The abstract value of a [`QueueElement`].
pub enum QueueElementView {
    Track(VideoMetadata),
    Playlist(PlaylistMetadataView),
}

impl View for QueueElement {
    type V = QueueElementView;

    open spec fn view(&self) -> QueueElementView {
        match self {
            QueueElement::Track(t) => QueueElementView::Track(*t),
            QueueElement::Playlist(p) => QueueElementView::Playlist(p@),
        }
    }
}

impl Clone for QueueElement {
    fn clone(&self) -> (res: Self)
        ensures
            res@ == self@,
    {
        match self {
            QueueElement::Track(t) => QueueElement::Track(t.clone()),
            QueueElement::Playlist(p) => QueueElement::Playlist(p.clone()),
        }
    }
}

/// The tracks an element stands for, in play order: a track is itself, a
/// playlist is its remaining items.
pub open spec fn expand(e: QueueElementView) -> Seq<VideoMetadata> {
    match e {
        QueueElementView::Track(t) => seq![t],
        QueueElementView::Playlist(p) => p.items,
    }
}

/// A well-formed queue element: a playlist always holds at least one
/// remaining item (an exhausted playlist is dropped, never retained).
pub open spec fn element_wf(e: QueueElementView) -> bool {
    e matches QueueElementView::Playlist(p) ==> p.items.len() > 0
}

/// Every element of the queue is well formed.
pub open spec fn queue_wf(q: Seq<QueueElementView>) -> bool {
    forall|i: int| 0 <= i < q.len() ==> element_wf(#[trigger] q[i])
}

/// All tracks a queue stands for, in play order, playlists expanded in place.
pub open spec fn flatten_queue(q: Seq<QueueElementView>) -> Seq<VideoMetadata>
    decreases q.len(),
{
    if q.len() == 0 {
        Seq::empty()
    } else {
        expand(q.first()) + flatten_queue(q.drop_first())
    }
}

/// Appending an element to the queue appends exactly its own tracks to the
/// flattened view: enqueueing neither loses nor duplicates any track.
pub proof fn lemma_flatten_queue_push(q: Seq<QueueElementView>, e: QueueElementView)
    ensures
        flatten_queue(q.push(e)) == flatten_queue(q) + expand(e),
    decreases q.len(),
{
    let qq = q.push(e);
    if q.len() == 0 {
        assert(qq.drop_first() =~= Seq::<QueueElementView>::empty());
        assert(flatten_queue(qq.drop_first()) =~= Seq::<VideoMetadata>::empty());
        assert(flatten_queue(qq) =~= flatten_queue(q) + expand(e));
    } else {
        assert(qq.drop_first() =~= q.drop_first().push(e));
        lemma_flatten_queue_push(q.drop_first(), e);
        assert(qq.first() == q.first());
        assert(flatten_queue(qq) =~= flatten_queue(q) + expand(e));
    }
}

/// A well-formed, non-empty queue stands for at least one track, and its
/// first track is the first track of its front element.
pub proof fn lemma_flatten_queue_first(q: Seq<QueueElementView>)
    requires
        queue_wf(q),
        q.len() > 0,
    ensures
        flatten_queue(q).len() > 0,
        flatten_queue(q).first() == expand(q.first()).first(),
{
    assert(element_wf(q[0]));
    assert(expand(q.first()).len() > 0);
}

/// Flattening distributes over splitting the queue at any index.
pub proof fn lemma_flatten_queue_split(q: Seq<QueueElementView>, i: int)
    requires
        0 <= i <= q.len(),
    ensures
        flatten_queue(q) == flatten_queue(q.take(i)) + flatten_queue(q.skip(i)),
    decreases i,
{
    if i == 0 {
        assert(q.take(0) =~= Seq::<QueueElementView>::empty());
        assert(q.skip(0) =~= q);
        assert(flatten_queue(q) =~= flatten_queue(q.take(0)) + flatten_queue(q.skip(0)));
    } else {
        lemma_flatten_queue_split(q.drop_first(), i - 1);
        assert(q.take(i).drop_first() =~= q.drop_first().take(i - 1));
        assert(q.skip(i) =~= q.drop_first().skip(i - 1));
        assert(q.take(i).first() == q.first());
        assert(q.take(i).len() == i);
        assert(flatten_queue(q.take(i)) == expand(q.first()) + flatten_queue(
            q.drop_first().take(i - 1),
        ));
        assert(flatten_queue(q) =~= flatten_queue(q.take(i)) + flatten_queue(q.skip(i)));
    }
}

impl From<YoutubeMetadata> for QueueElement {
    /// A resolved metadata value becomes the queue element of the same kind.
    fn from(value: YoutubeMetadata) -> (r: Self) {
        match value {
            YoutubeMetadata::Track(t) => QueueElement::Track(t),
            YoutubeMetadata::Playlist(p) => QueueElement::Playlist(p),
        }
    }
}

impl vstd::std_specs::convert::FromSpecImpl<YoutubeMetadata> for QueueElement {
    open spec fn obeys_from_spec() -> bool {
        true
    }

    open spec fn from_spec(value: YoutubeMetadata) -> QueueElement {
        match value {
            YoutubeMetadata::Track(t) => QueueElement::Track(t),
            YoutubeMetadata::Playlist(p) => QueueElement::Playlist(p),
        }
    }
}

} // verus!
