//! What holds of the scrobble pipeline whatever it is fed: which requests it
//! records, when a track may be scrobbled, and that no track is scrobbled
//! twice.

use crate::scrobbler::{
    listening_event, LookupView, RequestView, ResponseView, ScrobbleView, ScrobblerView, SlotView,
    SCROBBLE_THRESHOLD_MS,
};
use crate::util::SpotifyId;
use vstd::prelude::*;

verus! {

/// The tracks whose metadata was asked for, in the order of the requests.
pub open spec fn metadata_fetches(requests: Seq<RequestView>) -> Seq<SpotifyId>
    decreases requests.len(),
{
    if requests.len() == 0 {
        Seq::empty()
    } else {
        let earlier = metadata_fetches(requests.drop_last());
        match requests.last() {
            RequestView::Track(id) => earlier.push(id),
            _ => earlier,
        }
    }
}

/// The listening events that were submitted as scrobbles, in the order of the
/// requests.
pub open spec fn scrobbles(requests: Seq<RequestView>) -> Seq<ScrobbleView>
    decreases requests.len(),
{
    if requests.len() == 0 {
        Seq::empty()
    } else {
        let earlier = scrobbles(requests.drop_last());
        match requests.last() {
            RequestView::Scrobble(track) => earlier.push(track),
            _ => earlier,
        }
    }
}

/// One more request adds to the metadata fetches exactly where it is one.
pub proof fn lemma_metadata_fetches_push(requests: Seq<RequestView>, request: RequestView)
    ensures
        metadata_fetches(requests.push(request)) == (match request {
            RequestView::Track(id) => metadata_fetches(requests).push(id),
            _ => metadata_fetches(requests),
        }),
{
    assert(requests.push(request).drop_last() =~= requests);
}

/// One more request adds to the scrobbles exactly where it is one.
pub proof fn lemma_scrobbles_push(requests: Seq<RequestView>, request: RequestView)
    ensures
        scrobbles(requests.push(request)) == (match request {
            RequestView::Scrobble(track) => scrobbles(requests).push(track),
            _ => scrobbles(requests),
        }),
{
    assert(requests.push(request).drop_last() =~= requests);
}

/// The broadcast repeating the current track changes nothing, at whatever
/// time it comes.
pub proof fn lemma_current_track_again(pipeline: ScrobblerView, track_id: SpotifyId, now: i64)
    requires
        pipeline.current_track_id == Some(track_id),
    ensures
        pipeline.update_current_track(track_id, now) == pipeline,
{
}

/// A track that is not the current one has its metadata asked for exactly
/// once, and becomes the current track as of `now`, with no metadata and not
/// scrobbled.
pub proof fn lemma_new_track_fetched_once(pipeline: ScrobblerView, track_id: SpotifyId, now: i64)
    requires
        pipeline.current_track_id != Some(track_id),
    ensures
        ({
            let after = pipeline.update_current_track(track_id, now);
            &&& metadata_fetches(after.requests) == metadata_fetches(pipeline.requests).push(
                track_id,
            )
            &&& after.meta_fetch == SlotView::<LookupView, ScrobbleView>::Pending(
                LookupView::Track(track_id),
            )
            &&& after.current_track_id == Some(track_id)
            &&& after.current_track_start == Some(now)
            &&& after.current_track_meta is None
            &&& !after.current_track_scrobbled
        }),
{
    let due = pipeline.scrobble_if_due(now);
    if pipeline.can_scrobble_track(now) && pipeline.current_track_meta is Some {
        lemma_metadata_fetches_push(
            pipeline.requests,
            RequestView::Scrobble(pipeline.current_track_meta->0),
        );
    }
    assert(metadata_fetches(due.requests) == metadata_fetches(pipeline.requests));
    lemma_metadata_fetches_push(due.requests, RequestView::Track(track_id));
}

/// The broadcast reporting a track, the same track again and then another
/// one has the metadata of each asked for exactly once.
pub proof fn lemma_repeated_track_fetched_once(
    pipeline: ScrobblerView,
    first: SpotifyId,
    second: SpotifyId,
    t1: i64,
    t2: i64,
    t3: i64,
)
    requires
        pipeline.current_track_id != Some(first),
        first != second,
    ensures
        metadata_fetches(
            pipeline.update_current_track(first, t1).update_current_track(
                first,
                t2,
            ).update_current_track(second, t3).requests,
        ) == metadata_fetches(pipeline.requests).push(first).push(second),
{
    let one = pipeline.update_current_track(first, t1);
    lemma_new_track_fetched_once(pipeline, first, t1);
    lemma_current_track_again(one, first, t2);
    lemma_new_track_fetched_once(one, second, t3);
}

/// When the current track may be scrobbled. It may not while no more than
/// the threshold has passed since it became current, nor once it has been
/// scrobbled, nor while a submission occupies the scrobble slot, however much
/// time has passed. In every other case it may as soon as more than the
/// threshold has passed.
pub proof fn lemma_scrobble_eligibility(pipeline: ScrobblerView, now: i64)
    ensures
        pipeline.current_track_start is Some && now - pipeline.current_track_start->0
            <= SCROBBLE_THRESHOLD_MS ==> !pipeline.can_scrobble_track(now),
        pipeline.current_track_start is None ==> !pipeline.can_scrobble_track(now),
        pipeline.current_track_scrobbled ==> !pipeline.can_scrobble_track(now),
        !(pipeline.scrobble is Idle) ==> !pipeline.can_scrobble_track(now),
        !pipeline.current_track_scrobbled && pipeline.scrobble is Idle
            && pipeline.current_track_start is Some && now - pipeline.current_track_start->0
            > SCROBBLE_THRESHOLD_MS ==> pipeline.can_scrobble_track(now),
{
}

/// A track that has been scrobbled is not submitted again: a step of the
/// pipeline leaves it scrobbled and adds no scrobble.
pub proof fn lemma_scrobbled_once(pipeline: ScrobblerView, now: i64)
    requires
        pipeline.current_track_scrobbled,
    ensures
        pipeline.step(now).0.current_track_scrobbled,
        scrobbles(pipeline.step(now).0.requests) == scrobbles(pipeline.requests),
{
    let (s1, r1) = pipeline.poll_auth();
    if r1 is Ok {
        let (s2, r2) = s1.scrobble_if_due(now).poll_scrobble();
        if r2 is Ok {
            if s2.meta_fetch.succeeded() {
                lemma_scrobbles_push(
                    s2.requests,
                    RequestView::NowPlaying(s2.meta_fetch->Completed_0->Ok_0),
                );
            }
        }
    }
}

/// A step of the pipeline submits a scrobble exactly where one is due and the
/// metadata of the current track is known; the scrobble is that metadata.
pub proof fn lemma_step_scrobbles_when_due(pipeline: ScrobblerView, now: i64)
    requires
        !(pipeline.auth matches SlotView::Completed(Err(_))),
    ensures
        scrobbles(pipeline.step(now).0.requests) == (if pipeline.can_scrobble_track(now)
            && pipeline.current_track_meta is Some {
            scrobbles(pipeline.requests).push(pipeline.current_track_meta->0)
        } else {
            scrobbles(pipeline.requests)
        }),
{
    let (s1, r1) = pipeline.poll_auth();
    let due = s1.scrobble_if_due(now);
    if pipeline.can_scrobble_track(now) && pipeline.current_track_meta is Some {
        lemma_scrobbles_push(s1.requests, RequestView::Scrobble(pipeline.current_track_meta->0));
    }
    let (s2, r2) = due.poll_scrobble();
    if r2 is Ok {
        if s2.meta_fetch.succeeded() {
            lemma_scrobbles_push(
                s2.requests,
                RequestView::NowPlaying(s2.meta_fetch->Completed_0->Ok_0),
            );
        }
    }
}

/// A track becomes scrobbled only by a submission that succeeded: a step
/// marks it where the scrobble slot held a success, and nowhere else.
pub proof fn lemma_scrobbled_by_success_only(pipeline: ScrobblerView, now: i64)
    requires
        !pipeline.current_track_scrobbled,
    ensures
        pipeline.step(now).0.current_track_scrobbled ==> pipeline.scrobble.succeeded(),
        pipeline.scrobble.succeeded() && !(pipeline.auth matches SlotView::Completed(Err(_)))
            ==> pipeline.step(now).0.current_track_scrobbled,
{
}

/// The outcome of an operation never changes what is known of the current
/// track: which it is, since when, and whether it has been scrobbled.
pub proof fn lemma_outcome_keeps_session(pipeline: ScrobblerView, response: ResponseView)
    ensures
        ({
            let after = pipeline.complete(response);
            &&& after.current_track_id == pipeline.current_track_id
            &&& after.current_track_start == pipeline.current_track_start
            &&& after.current_track_meta == pipeline.current_track_meta
            &&& after.current_track_scrobbled == pipeline.current_track_scrobbled
        }),
{
}

/// Once both lookups of a fetch have succeeded, the next step announces the
/// track as now playing by its artist and title, and stores that metadata.
pub proof fn lemma_resolved_metadata_announced(
    pipeline: ScrobblerView,
    artist: SpotifyId,
    track_name: Seq<char>,
    artist_name: Seq<char>,
    now: i64,
)
    requires
        pipeline.meta_fetch == SlotView::<LookupView, ScrobbleView>::Pending(
            LookupView::Artist { artist, track_name },
        ),
        !(pipeline.auth matches SlotView::Completed(Err(_))),
        !(pipeline.scrobble matches SlotView::Completed(Err(_))),
    ensures
        ({
            let event = listening_event(artist_name, track_name);
            let resolved = pipeline.complete(ResponseView::Artist(artist, Ok(artist_name)));
            let after = resolved.step(now).0;
            &&& resolved.meta_fetch == SlotView::<LookupView, ScrobbleView>::Completed(Ok(event))
            &&& resolved.step(now).1 == Ok::<bool, Seq<char>>(true)
            &&& after.current_track_meta == Some(event)
            &&& after.meta_fetch is Idle
            &&& after.requests.len() > 0
            &&& after.requests.last() == RequestView::NowPlaying(event)
            &&& (after.now_playing == SlotView::<ScrobbleView, ()>::Pending(event))
        }),
{
}

} // verus!
