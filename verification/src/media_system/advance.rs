//! What runs of commands amount to: the order in which queued tracks become
//! current, and how shuffle, repeat and going back interact with it.
//!
//! The engine only asks for a track to be loaded; the track becomes current
//! when the caller has loaded it and calls `play_track`. The statements here
//! are about commands whose requested track is loaded successfully.

use crate::library::track::TrackView;
use crate::media_system::{
    first_index_of, resumed_order, rotated, LoadRequestView, MediaStateView, MediaSystemView,
    QueueableView, Repeat,
};
use vstd::prelude::*;

verus! {

/// One call of `play_next` together with what the sink reports when the
/// requested track is loaded.
pub struct Advance {
    pub interrupt: bool,
    pub sink_empty: bool,
}

impl MediaSystemView {
    /// The engine after the track of `request`, if any, has been loaded.
    pub open spec fn after_load(
        self,
        request: Option<LoadRequestView>,
        sink_empty: bool,
    ) -> MediaSystemView {
        match request {
            Some(r) => self.after_play_track(r.track, r.interrupt, sink_empty),
            None => self,
        }
    }

    /// The engine after `play_next` and the loading of the track it asked
    /// for.
    pub open spec fn advanced(self, call: Advance) -> MediaSystemView {
        self.after_play_next().after_load(self.next_request(call.interrupt), call.sink_empty)
    }

    /// The engine after one `advanced` for each of `calls`, in their order.
    pub open spec fn after_advances(self, calls: Seq<Advance>) -> MediaSystemView
        decreases calls.len(),
    {
        if calls.len() == 0 {
            self
        } else {
            self.after_advances(calls.drop_last()).advanced(calls.last())
        }
    }

    /// The engine after `play_prev` and the loading of the track it asked
    /// for.
    pub open spec fn went_back(self, sink_empty: bool) -> MediaSystemView {
        self.after_play_prev().after_load(self.prev_request(), sink_empty)
    }

    /// The current track followed by the queue: the tracks in the order in
    /// which they are heard from now on.
    pub open spec fn upcoming(self) -> Seq<TrackView> {
        match self.state.current_track {
            Some(current) => seq![current] + self.queue,
            None => self.queue,
        }
    }
}

/// With repeat off, each advance makes the head of the queue current until
/// the queue is used up; from then on an advance changes neither the current
/// track nor the queue.
pub proof fn lemma_advances_follow_queue(start: MediaSystemView, calls: Seq<Advance>)
    requires
        start.state.repeat == Repeat::Off,
    ensures
        ({
            let end = start.after_advances(calls);
            let taken = if calls.len() <= start.queue.len() {
                calls.len()
            } else {
                start.queue.len()
            };
            &&& end.state.repeat == Repeat::Off
            &&& end.queue == start.queue.subrange(taken as int, start.queue.len() as int)
            &&& end.state.current_track == if taken == 0 {
                start.state.current_track
            } else {
                Some(start.queue[taken - 1])
            }
        }),
    decreases calls.len(),
{
    if calls.len() == 0 {
        assert(start.queue.subrange(0, start.queue.len() as int) =~= start.queue);
    } else {
        let before = start.after_advances(calls.drop_last());
        lemma_advances_follow_queue(start, calls.drop_last());
        let end = before.advanced(calls.last());
        let n = calls.len() - 1;
        if n < start.queue.len() {
            assert(before.queue.len() > 0);
            assert(before.queue[0] == start.queue[n]);
            assert(before.queue.drop_first() =~= start.queue.subrange(
                n + 1,
                start.queue.len() as int,
            ));
        } else {
            assert(before.queue.len() == 0);
            assert(end == before);
        }
    }
}

/// Tracks put on the queue with shuffle and repeat off become current in the
/// order of the list: `enqueue_and_play` asks for the first one, and once
/// that is loaded the n-th advance makes the track after the n-th current.
/// When the list is used up a further advance changes nothing, and the end
/// of the last track leaves no track current.
pub proof fn lemma_enqueued_tracks_play_in_order(
    before: MediaSystemView,
    queueable: QueueableView,
    enqueued: MediaSystemView,
    request: Option<LoadRequestView>,
    sink_empty: bool,
    calls: Seq<Advance>,
    elapsed: nat,
)
    requires
        before.state.repeat == Repeat::Off,
        !before.state.shuffle,
        before.enqueued_and_played(queueable, enqueued, request),
        queueable.tracks().len() > 0,
    ensures
        ({
            let tracks = queueable.tracks();
            let end = enqueued.after_load(request, sink_empty).after_advances(calls);
            &&& request is Some
            &&& request->0.track == tracks[0]
            &&& calls.len() < tracks.len() ==> end.state.current_track == Some(
                tracks[calls.len() as int],
            )
            &&& calls.len() >= tracks.len() ==> {
                &&& end.state.current_track == Some(tracks.last())
                &&& end.queue.len() == 0
                &&& end.after_update_progress(elapsed, true).state.current_track is None
            }
        }),
{
    let tracks = queueable.tracks();
    let started = enqueued.after_load(request, sink_empty);
    lemma_advances_follow_queue(started, calls);
    assert(started.queue == tracks.drop_first());
}

/// Turning shuffle on and off again leaves the queue in the unshuffled
/// order, turned so that it starts with the track that follows the current
/// one; everything else is as before.
pub proof fn lemma_shuffle_on_then_off(before: MediaSystemView, shuffled: MediaSystemView)
    requires
        before.shuffled_on(shuffled),
    ensures
        shuffled.after_shuffle_off() == (MediaSystemView {
            state: MediaStateView { shuffle: false, ..before.state },
            queue: resumed_order(before.ordered_queue, before.state.current_track),
            ..before
        }),
{
}

/// The order that turning shuffle off restores holds the tracks of the
/// unshuffled queue, and where the current track stands in that queue and is
/// not its last track, the restored order starts with the track after it.
pub proof fn lemma_resumed_order_starts_after_current(
    ordered: Seq<TrackView>,
    current: TrackView,
)
    ensures
        ({
            let index = first_index_of(ordered, current) as int;
            let resumed = resumed_order(ordered, Some(current));
            &&& index <= ordered.len()
            &&& index < ordered.len() ==> ordered[index] == current
            &&& resumed.len() == ordered.len()
            &&& resumed.to_multiset() == ordered.to_multiset()
            &&& index + 1 < ordered.len() ==> resumed[0] == ordered[index + 1]
        }),
{
    lemma_first_index_of_is_place(ordered, current);
    let index = first_index_of(ordered, current) as int;
    if index < ordered.len() {
        let front = ordered.subrange(0, index + 1);
        let back = ordered.subrange(index + 1, ordered.len() as int);
        assert(front + back =~= ordered);
        vstd::seq_lib::lemma_seq_union_to_multiset_commutative(front, back);
    }
}

/// `first_index_of` is at most the length, and a place of `track` where it
/// is below the length.
pub proof fn lemma_first_index_of_is_place(tracks: Seq<TrackView>, track: TrackView)
    ensures
        first_index_of(tracks, track) <= tracks.len(),
        first_index_of(tracks, track) < tracks.len() ==> tracks[first_index_of(tracks, track) as int]
            == track,
    decreases tracks.len(),
{
    if tracks.len() > 0 && tracks[0] != track {
        lemma_first_index_of_is_place(tracks.drop_first(), track);
    }
}

/// Going back right after an advance makes the track current again that was
/// current before the advance, and leaves the history empty as it was.
pub proof fn lemma_prev_undoes_next(before: MediaSystemView, call: Advance, sink_empty: bool)
    requires
        before.state.current_track is Some,
        before.history.len() == 0,
    ensures
        ({
            let back = before.advanced(call).went_back(sink_empty);
            &&& back.state.current_track == before.state.current_track
            &&& back.history.len() == 0
        }),
{
    let advanced = before.advanced(call);
    let current = before.state.current_track->0;
    if before.next_track() is Some && before.state.repeat != Repeat::One {
        assert(advanced.history =~= seq![current]);
        assert(advanced.history.drop_last() =~= Seq::<TrackView>::empty());
    }
}

/// Under repeat-one every advance asks for the current track again, whatever
/// the queue holds, and leaves the queue, the history and the current track
/// as they are.
pub proof fn lemma_repeat_one_reloads_current(
    start: MediaSystemView,
    calls: Seq<Advance>,
    other_queue: Seq<TrackView>,
    interrupt: bool,
)
    requires
        start.state.repeat == Repeat::One,
    ensures
        ({
            let end = start.after_advances(calls);
            &&& end.state.repeat == Repeat::One
            &&& end.state.current_track == start.state.current_track
            &&& end.queue == start.queue
            &&& end.ordered_queue == start.ordered_queue
            &&& end.history == start.history
            &&& end.next_track() == start.state.current_track
            &&& (MediaSystemView { queue: other_queue, ..end }).next_request(interrupt)
                == end.next_request(interrupt)
        }),
    decreases calls.len(),
{
    if calls.len() > 0 {
        lemma_repeat_one_reloads_current(start, calls.drop_last(), other_queue, interrupt);
    }
}

/// Under repeat-all the current track and the queue after it go round in a
/// circle: after n advances, with n no more than their number, they are the
/// tracks they were, turned by n places.
pub proof fn lemma_repeat_all_rotates(start: MediaSystemView, calls: Seq<Advance>)
    requires
        start.state.repeat == Repeat::All,
        start.state.current_track is Some,
        calls.len() <= start.upcoming().len(),
    ensures
        ({
            let end = start.after_advances(calls);
            &&& end.state.repeat == Repeat::All
            &&& end.state.current_track is Some
            &&& end.upcoming() == rotated(start.upcoming(), calls.len() as int)
        }),
    decreases calls.len(),
{
    let round = start.upcoming();
    if calls.len() == 0 {
        assert(rotated(round, 0) =~= round);
    } else {
        let n = calls.len() - 1;
        let before = start.after_advances(calls.drop_last());
        lemma_repeat_all_rotates(start, calls.drop_last());
        let end = before.advanced(calls.last());
        let turned = before.upcoming();
        assert(turned.len() == round.len());
        if before.queue.len() > 0 {
            assert(end.upcoming() =~= rotated(turned, 1));
        } else {
            assert(end == before);
            assert(turned.len() == 1);
            assert(end.upcoming() =~= rotated(turned, 1));
        }
        assert(rotated(rotated(round, n), 1) =~= rotated(round, n + 1));
    }
}

/// Under repeat-all, one advance for the current track and each track of the
/// queue closes the circle: the same track is current again and the queue
/// holds what it held, in the same order.
pub proof fn lemma_repeat_all_cycle(start: MediaSystemView, calls: Seq<Advance>)
    requires
        start.state.repeat == Repeat::All,
        start.state.current_track is Some,
        calls.len() == start.queue.len() + 1,
    ensures
        ({
            let end = start.after_advances(calls);
            &&& end.state.current_track == start.state.current_track
            &&& end.queue == start.queue
        }),
{
    lemma_repeat_all_rotates(start, calls);
    let end = start.after_advances(calls);
    let round = start.upcoming();
    assert(rotated(round, round.len() as int) =~= round);
    assert(end.upcoming()[0] == round[0]);
    assert(end.upcoming().drop_first() =~= end.queue);
    assert(round.drop_first() =~= start.queue);
}

/// Whatever time passes and whatever the sink reports, updating the progress
/// never leaves progress behind without a current track.
pub proof fn lemma_progress_needs_track(before: MediaSystemView, elapsed: nat, sink_empty: bool)
    requires
        before.wf(),
    ensures
        ({
            let after = before.after_update_progress(elapsed, sink_empty);
            &&& after.wf()
            &&& after.state.current_track is None ==> after.state.current_track_progress is None
        }),
{
}

/// Every command keeps the invariant of the playback state: progress is
/// only held, and playback only runs, while a track is loaded.
pub proof fn lemma_commands_keep_invariant(
    before: MediaSystemView,
    track: TrackView,
    interrupt: bool,
    sink_empty: bool,
    elapsed: nat,
)
    requires
        before.wf(),
    ensures
        MediaSystemView::initial(before.gapless_playback).wf(),
        before.after_play().wf(),
        before.after_pause().wf(),
        before.after_stop(sink_empty).wf(),
        before.after_play_track(track, interrupt, sink_empty).wf(),
        before.after_enqueue(track).wf(),
        before.after_play_next().wf(),
        before.after_play_prev().wf(),
        before.after_toggle_repeat().wf(),
        before.after_shuffle_off().wf(),
        before.after_update_progress(elapsed, sink_empty).wf(),
        before.after_tick(elapsed, sink_empty).wf(),
        before.advanced(Advance { interrupt, sink_empty }).wf(),
        before.went_back(sink_empty).wf(),
        forall|after: MediaSystemView| before.shuffled_on(after) ==> after.wf(),
        forall|queueable: QueueableView, after: MediaSystemView, request: Option<LoadRequestView>|
            before.enqueued_and_played(queueable, after, request) ==> after.wf(),
{
}

} // verus!
