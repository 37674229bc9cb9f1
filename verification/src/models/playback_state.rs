//! The per-session playback state machine: the queue, the current track, the
//! playing flag, and the token of the active stream handle.

use std::collections::VecDeque;
use vstd::prelude::*;

use crate::models::playlist_metadata::playlist_front_consumed;
use crate::models::queue_element::QueueElement;
use crate::models::queue_element::QueueElementView;
use crate::models::queue_element::element_wf;
use crate::models::queue_element::expand;
use crate::models::queue_element::flatten_queue;
use crate::models::queue_element::lemma_flatten_queue_first;
use crate::models::queue_element::lemma_flatten_queue_push;
use crate::models::queue_element::lemma_flatten_queue_split;
use crate::models::queue_element::queue_wf;
use crate::models::video_metadata::VideoMetadata;

verus! {

/// The abstract value of a [`PlaybackState`].
#[verifier::ext_equal]
pub struct PlaybackStateModel {
    pub playing: bool,
    pub current_track: Option<VideoMetadata>,
    pub track_handle: Option<u64>,
    pub queue: Seq<QueueElementView>,
}

/// The abstract values of the queued elements, front first.
pub open spec fn queue_view(q: Seq<QueueElement>) -> Seq<QueueElementView> {
    q.map_values(|e: QueueElement| e@)
}

/// One session's playback bookkeeping.
///
/// `track_handle` holds an opaque token standing for the transport's
/// stream-control object; the unverified shell maps tokens to real handles.
/// A fresh token is attached every time a new stream is started, and the
/// field is cleared whenever the current track changes.
#[derive(Debug)]
pub struct PlaybackState {
    playing: bool,
    current_track: Option<VideoMetadata>,
    track_handle: Option<u64>,
    queue: VecDeque<QueueElement>,
}

impl View for PlaybackState {
    type V = PlaybackStateModel;

    closed spec fn view(&self) -> PlaybackStateModel {
        PlaybackStateModel {
            playing: self.playing,
            current_track: self.current_track,
            track_handle: self.track_handle,
            queue: queue_view(self.queue@),
        }
    }
}

/// What enqueueing one element does to the queue: a well-formed element is
/// appended at the tail; an exhausted playlist is never retained, so it is
/// dropped on arrival and the queue stays as it was.
pub open spec fn spec_enqueue(
    q: Seq<QueueElementView>,
    e: QueueElementView,
) -> Seq<QueueElementView> {
    if element_wf(e) {
        q.push(e)
    } else {
        q
    }
}

/// What one advance does to a non-empty queue: a front track leaves whole; a
/// front playlist loses its first item and stays at the front unless that
/// item was its last, in which case the playlist leaves too.
pub open spec fn queue_advanced(prev: Seq<QueueElementView>, next: Seq<QueueElementView>) -> bool {
    &&& prev.len() > 0
    &&& match prev.first() {
        QueueElementView::Track(_) => next == prev.drop_first(),
        QueueElementView::Playlist(p) => if p.items.len() > 1 {
            &&& next.len() == prev.len()
            &&& next.drop_first() == prev.drop_first()
            &&& (next.first() matches QueueElementView::Playlist(p2) && playlist_front_consumed(
                p,
                p2,
            ))
        } else {
            next == prev.drop_first()
        },
    }
}

/// The state invariant: `playing` only with a current track; the queue never
/// holds an exhausted playlist; and the number of tracks the queue stands for
/// fits the machine word that reports it.
pub open spec fn model_inv(m: PlaybackStateModel) -> bool {
    &&& m.playing ==> m.current_track is Some
    &&& queue_wf(m.queue)
    &&& flatten_queue(m.queue).len() <= usize::MAX
}

/// The abstract value of a fresh, idle session.
pub open spec fn idle_model() -> PlaybackStateModel {
    PlaybackStateModel {
        playing: false,
        current_track: None,
        track_handle: None,
        queue: Seq::empty(),
    }
}

impl PlaybackState {
    /// The state invariant, on the abstract value.
    pub open spec fn inv(self) -> bool {
        model_inv(self@)
    }

    pub fn is_playing(&self) -> (r: bool)
        ensures
            r == self@.playing,
    {
        self.playing
    }

    pub fn set_playing(&mut self, play_state: bool)
        ensures
            final(self)@ == (PlaybackStateModel { playing: play_state, ..old(self)@ }),
    {
        self.playing = play_state;
    }

    pub fn get_current_track(&self) -> (r: &Option<VideoMetadata>)
        ensures
            *r == self@.current_track,
    {
        &self.current_track
    }

    pub fn set_current_track(&mut self, current_track: Option<VideoMetadata>)
        ensures
            final(self)@ == (PlaybackStateModel { current_track, ..old(self)@ }),
    {
        self.current_track = current_track;
    }

    pub fn set_track_handle(&mut self, track_handle: Option<u64>)
        ensures
            final(self)@ == (PlaybackStateModel { track_handle, ..old(self)@ }),
    {
        self.track_handle = track_handle;
    }

    pub fn get_track_handle(&self) -> (r: Option<u64>)
        ensures
            r == self@.track_handle,
    {
        self.track_handle
    }

    /// Append an element at the queue tail. Valid in any state; changes
    /// neither the playing flag nor the current track. Exactly the element's
    /// own tracks join the flattened queue: none are lost, none duplicated.
    pub fn enqueue(&mut self, element: QueueElement)
        requires
            old(self).inv(),
            flatten_queue(old(self)@.queue).len() + expand(element@).len() <= usize::MAX,
        ensures
            final(self).inv(),
            final(self)@ == (PlaybackStateModel {
                queue: spec_enqueue(old(self)@.queue, element@),
                ..old(self)@
            }),
            flatten_queue(final(self)@.queue) == flatten_queue(old(self)@.queue) + expand(
                element@,
            ),
    {
        let ghost prev = self@.queue;
        let retain = match &element {
            QueueElement::Playlist(p) => p.items.len() > 0,
            QueueElement::Track(_) => true,
        };
        if retain {
            proof {
                lemma_flatten_queue_push(prev, element@);
            }
            let ghost e = element@;
            self.queue.push_back(element);
            proof {
                assert(self@.queue =~= prev.push(e));
            }
        } else {
            proof {
                assert(expand(element@).len() == 0);
                assert(flatten_queue(prev) + expand(element@) =~= flatten_queue(prev));
            }
        }
    }

    /// Peek the front element without consuming it.
    pub fn next(&self) -> (r: Option<&QueueElement>)
        ensures
            match r {
                Some(e) => self@.queue.len() > 0 && e@ == self@.queue.first(),
                None => self@.queue.len() == 0,
            },
    {
        if self.queue.len() > 0 {
            Some(&self.queue[0])
        } else {
            None
        }
    }

    /// Pop the next single track off the queue front, expanding playlists:
    /// a front track leaves whole; a front playlist gives up its first item
    /// and is itself removed the moment its last item is consumed.
    pub fn dequeue(&mut self) -> (r: Option<VideoMetadata>)
        requires
            old(self).inv(),
        ensures
            final(self).inv(),
            final(self)@.playing == old(self)@.playing,
            final(self)@.current_track == old(self)@.current_track,
            final(self)@.track_handle == old(self)@.track_handle,
            old(self)@.queue.len() == 0 ==> r is None && final(self)@ == old(self)@,
            old(self)@.queue.len() > 0 ==> {
                &&& r == Some(flatten_queue(old(self)@.queue).first())
                &&& flatten_queue(final(self)@.queue) == flatten_queue(
                    old(self)@.queue,
                ).drop_first()
                &&& queue_advanced(old(self)@.queue, final(self)@.queue)
            },
    {
        let ghost prev = self@.queue;
        proof {
            if prev.len() > 0 {
                lemma_flatten_queue_first(prev);
            }
        }
        match self.queue.pop_front() {
            Some(QueueElement::Track(t)) => {
                proof {
                    assert(self@.queue =~= prev.drop_first());
                    assert(expand(prev.first()) =~= seq![t]);
                    assert(flatten_queue(self@.queue) =~= flatten_queue(prev).drop_first());
                }
                Some(t)
            },
            Some(QueueElement::Playlist(mut p)) => {
                let ghost p0 = p@;
                proof {
                    assert(prev.first() == QueueElementView::Playlist(p0));
                    assert(element_wf(prev.first()));
                }
                let next = p.items.pop_front();
                if p.items.len() > 0 {
                    let ghost p1 = p@;
                    self.queue.push_front(QueueElement::Playlist(p));
                    proof {
                        let q2 = self@.queue;
                        assert(q2 =~= seq![QueueElementView::Playlist(p1)] + prev.drop_first());
                        assert(q2.drop_first() =~= prev.drop_first());
                        assert(playlist_front_consumed(p0, p1));
                        assert(queue_wf(q2));
                        assert(flatten_queue(q2) == expand(q2.first()) + flatten_queue(
                            q2.drop_first(),
                        ));
                        assert(flatten_queue(q2) =~= flatten_queue(prev).drop_first());
                    }
                } else {
                    proof {
                        assert(self@.queue =~= prev.drop_first());
                        assert(p0.items.len() == 1);
                        assert(flatten_queue(self@.queue) =~= flatten_queue(prev).drop_first());
                    }
                }
                next
            },
            None => {
                proof {
                    assert(self@ =~= old(self)@);
                }
                None
            },
        }
    }

    /// Count the tracks the queue stands for, playlists expanded.
    pub fn number_of_tracks_queued(&self) -> (r: usize)
        requires
            self.inv(),
        ensures
            r == flatten_queue(self@.queue).len(),
    {
        let ghost q = self@.queue;
        let mut total: usize = 0;
        let mut i: usize = 0;
        while i < self.queue.len()
            invariant
                self.inv(),
                q == self@.queue,
                self.queue@.len() == q.len(),
                i <= q.len(),
                total == flatten_queue(q.take(i as int)).len(),
            decreases q.len() - i,
        {
            proof {
                assert(q.take(i + 1 as int) =~= q.take(i as int).push(q[i as int]));
                lemma_flatten_queue_push(q.take(i as int), q[i as int]);
                lemma_flatten_queue_split(q, i + 1 as int);
                assert(q.take(q.len() as int) =~= q);
            }
            let count = match &self.queue[i] {
                QueueElement::Track(_) => 1,
                QueueElement::Playlist(p) => p.items.len(),
            };
            total = total + count;
            i = i + 1;
        }
        proof {
            assert(q.take(q.len() as int) =~= q);
        }
        total
    }

    /// Count the top-level queue elements.
    pub fn number_of_items_queued(&self) -> (r: usize)
        ensures
            r == self@.queue.len(),
    {
        self.queue.len()
    }

    /// A snapshot of up to `k` upcoming queue elements, front first, not
    /// consumed.
    pub fn next_items_queued(&self, k: usize) -> (r: Vec<QueueElement>)
        ensures
            queue_view(r@) == self@.queue.take(
                if k <= self@.queue.len() {
                    k as int
                } else {
                    self@.queue.len() as int
                },
            ),
    {
        let count = if k <= self.queue.len() {
            k
        } else {
            self.queue.len()
        };
        let mut r: Vec<QueueElement> = Vec::new();
        let mut i: usize = 0;
        while i < count
            invariant
                count <= self.queue@.len(),
                i <= count,
                queue_view(r@) == self@.queue.take(i as int),
            decreases count - i,
        {
            let e = self.queue[i].clone();
            proof {
                assert(e@ == self@.queue[i as int]);
            }
            let ghost prev_r = r@;
            r.push(e);
            proof {
                assert(queue_view(prev_r).len() == i as int);
                assert(prev_r.len() == i as int);
                assert(r@ == prev_r.push(e));
                assert(r@.len() == i + 1);
                assert forall|j: int| 0 <= j < i + 1 implies queue_view(r@)[j] == self@.queue.take(
                    i + 1 as int,
                )[j] by {
                    assert(self@.queue.take(i + 1 as int)[j] == self@.queue[j]);
                    assert(queue_view(r@)[j] == r@[j]@);
                    if j < i {
                        assert(r@[j] == prev_r[j]);
                        assert(queue_view(prev_r)[j] == self@.queue.take(i as int)[j]);
                        assert(queue_view(prev_r)[j] == prev_r[j]@);
                    } else {
                        assert(r@[j] == e);
                    }
                }
                assert(queue_view(r@) =~= self@.queue.take(i + 1 as int));
            }
            i = i + 1;
        }
        r
    }

    /// Advance: consume the next track (if any) into `current_track`, set
    /// `playing` accordingly, and clear the stream-handle token so the caller
    /// attaches a fresh one. On an empty queue this is the no-op transition
    /// to idle: no track, not playing, queue untouched — calling it again
    /// yields the same.
    pub fn play_next(&mut self)
        requires
            old(self).inv(),
        ensures
            final(self).inv(),
            final(self)@.track_handle is None,
            old(self)@.queue.len() == 0 ==> {
                &&& final(self)@.playing == false
                &&& final(self)@.current_track is None
                &&& final(self)@.queue == old(self)@.queue
            },
            old(self)@.queue.len() > 0 ==> {
                &&& final(self)@.playing == true
                &&& final(self)@.current_track == Some(flatten_queue(old(self)@.queue).first())
                &&& flatten_queue(final(self)@.queue) == flatten_queue(
                    old(self)@.queue,
                ).drop_first()
                &&& queue_advanced(old(self)@.queue, final(self)@.queue)
            },
    {
        let next = self.dequeue();
        let playing = match &next {
            Some(_) => true,
            None => false,
        };
        self.set_playing(playing);
        self.set_current_track(next);
        self.set_track_handle(None);
    }

    /// Forget everything: empty queue, no current track, not playing, no
    /// stream handle. Used by stop, whatever the prior state.
    pub fn reset(&mut self)
        ensures
            final(self).inv(),
            final(self)@.playing == false,
            final(self)@.current_track is None,
            final(self)@.track_handle is None,
            final(self)@.queue == Seq::<QueueElementView>::empty(),
    {
        self.set_current_track(None);
        self.set_track_handle(None);
        self.set_playing(false);
        self.queue.clear();
        proof {
            assert(self@.queue =~= Seq::<QueueElementView>::empty());
        }
    }

    /// Discard up to `n` upcoming tracks by the same popping rule as
    /// [`Self::dequeue`], without playing them. Returns how many were
    /// actually discarded: `n`, or everything the queue held if that was
    /// fewer.
    pub fn discard_tracks(&mut self, n: usize) -> (discarded: usize)
        requires
            old(self).inv(),
        ensures
            final(self).inv(),
            final(self)@.playing == old(self)@.playing,
            final(self)@.current_track == old(self)@.current_track,
            final(self)@.track_handle == old(self)@.track_handle,
            discarded == (if n <= flatten_queue(old(self)@.queue).len() {
                n as int
            } else {
                flatten_queue(old(self)@.queue).len() as int
            }),
            flatten_queue(final(self)@.queue) == flatten_queue(old(self)@.queue).skip(
                discarded as int,
            ),
    {
        let ghost orig = flatten_queue(old(self)@.queue);
        let mut discarded: usize = 0;
        while discarded < n && self.queue.len() > 0
            invariant
                self.inv(),
                self@.playing == old(self)@.playing,
                self@.current_track == old(self)@.current_track,
                self@.track_handle == old(self)@.track_handle,
                self.queue@.len() == self@.queue.len(),
                discarded <= n,
                discarded <= orig.len(),
                flatten_queue(self@.queue) == orig.skip(discarded as int),
            decreases n - discarded,
        {
            proof {
                lemma_flatten_queue_first(self@.queue);
                assert(orig.skip(discarded as int).drop_first() =~= orig.skip(discarded + 1));
            }
            let _popped = self.dequeue();
            discarded = discarded + 1;
        }
        proof {
            if self@.queue.len() == 0 {
                assert(flatten_queue(self@.queue).len() == 0);
                assert(orig.skip(discarded as int).len() == 0);
            }
        }
        discarded
    }
}

impl Default for PlaybackState {
    /// The fresh state: idle, empty queue, nothing playing.
    fn default() -> (r: Self)
        ensures
            r.inv(),
            r@ == idle_model(),
    {
        let r = PlaybackState {
            playing: false,
            current_track: None,
            track_handle: None,
            queue: VecDeque::new(),
        };
        proof {
            assert(r@.queue =~= Seq::<QueueElementView>::empty());
            assert(r@ =~= idle_model());
        }
        r
    }
}

/// The per-element track count of a sequence of enqueued elements: one for a
/// track, the item count for a playlist.
pub open spec fn track_total(elements: Seq<QueueElementView>) -> nat
    decreases elements.len(),
{
    if elements.len() == 0 {
        0
    } else {
        expand(elements.first()).len() + track_total(elements.drop_first())
    }
}

/// The queue after enqueueing each element in order.
pub open spec fn enqueue_all(
    q: Seq<QueueElementView>,
    elements: Seq<QueueElementView>,
) -> Seq<QueueElementView>
    decreases elements.len(),
{
    if elements.len() == 0 {
        q
    } else {
        enqueue_all(spec_enqueue(q, elements.first()), elements.drop_first())
    }
}

/// For every sequence of enqueues, the number of tracks the queue stands for
/// grows by exactly the sum, over the enqueued elements, of one per track and
/// the item count per playlist. On a fresh session (`q` empty) the track
/// count after the enqueues is exactly that sum.
pub proof fn lemma_track_count_after_enqueues(
    q: Seq<QueueElementView>,
    elements: Seq<QueueElementView>,
)
    ensures
        flatten_queue(enqueue_all(q, elements)).len() == flatten_queue(q).len() + track_total(
            elements,
        ),
    decreases elements.len(),
{
    if elements.len() == 0 {
    } else {
        let e = elements.first();
        if element_wf(e) {
            lemma_flatten_queue_push(q, e);
        } else {
            assert(expand(e).len() == 0);
        }
        lemma_track_count_after_enqueues(spec_enqueue(q, e), elements.drop_first());
    }
}

/// One operation of the queue's lifetime, at the abstract level: a user
/// enqueues an element, or an advance consumes the next track (a no-op when
/// nothing is queued).
pub enum QueueOp {
    Enqueue(QueueElementView),
    Advance,
}

/// Run a sequence of operations over the flattened queue and the history of
/// tracks consumed so far, in order: an enqueue appends the element's tracks
/// to the queue; an advance moves the front queued track to the history.
pub open spec fn run_queue_ops(
    flat: Seq<VideoMetadata>,
    hist: Seq<VideoMetadata>,
    ops: Seq<QueueOp>,
) -> (Seq<VideoMetadata>, Seq<VideoMetadata>)
    decreases ops.len(),
{
    if ops.len() == 0 {
        (flat, hist)
    } else {
        match ops.first() {
            QueueOp::Enqueue(e) => run_queue_ops(flat + expand(e), hist, ops.drop_first()),
            QueueOp::Advance => if flat.len() == 0 {
                run_queue_ops(flat, hist, ops.drop_first())
            } else {
                run_queue_ops(flat.drop_first(), hist.push(flat.first()), ops.drop_first())
            },
        }
    }
}

/// All tracks the operations enqueue, in order.
pub open spec fn enqueued_tracks(ops: Seq<QueueOp>) -> Seq<VideoMetadata>
    decreases ops.len(),
{
    if ops.len() == 0 {
        Seq::empty()
    } else {
        match ops.first() {
            QueueOp::Enqueue(e) => expand(e) + enqueued_tracks(ops.drop_first()),
            QueueOp::Advance => enqueued_tracks(ops.drop_first()),
        }
    }
}

/// Conservation of queued tracks: however enqueues and advances interleave,
/// the tracks consumed so far followed by the tracks still queued are exactly
/// the starting contents plus everything enqueued, in order. No queued track
/// is ever lost, duplicated, or reordered; each is consumed exactly once when
/// the advances reach it. The two steps of [`run_queue_ops`] are exactly what
/// [`PlaybackState::enqueue`] and [`PlaybackState::play_next`] promise of the
/// flattened queue, so the law carries over to any serialized interleaving of
/// those operations.
pub proof fn lemma_queue_conservation(
    flat: Seq<VideoMetadata>,
    hist: Seq<VideoMetadata>,
    ops: Seq<QueueOp>,
)
    ensures
        ({
            let (flat2, hist2) = run_queue_ops(flat, hist, ops);
            hist2 + flat2 == hist + flat + enqueued_tracks(ops)
        }),
    decreases ops.len(),
{
    if ops.len() == 0 {
        assert(hist + flat + enqueued_tracks(ops) =~= hist + flat);
    } else {
        let rest = ops.drop_first();
        match ops.first() {
            QueueOp::Enqueue(e) => {
                lemma_queue_conservation(flat + expand(e), hist, rest);
                assert(hist + (flat + expand(e)) + enqueued_tracks(rest) =~= hist + flat + (
                expand(e) + enqueued_tracks(rest)));
            },
            QueueOp::Advance => {
                if flat.len() == 0 {
                    lemma_queue_conservation(flat, hist, rest);
                    assert(hist + flat + enqueued_tracks(rest) =~= hist + flat + enqueued_tracks(
                        ops,
                    ));
                } else {
                    lemma_queue_conservation(flat.drop_first(), hist.push(flat.first()), rest);
                    assert(hist.push(flat.first()) + flat.drop_first() =~= hist + flat);
                }
            },
        }
    }
}

} // verus!
