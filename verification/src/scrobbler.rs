//! The scrobble pipeline: it follows the track that the broadcast reports as
//! playing, asks for its metadata, announces it as "now playing", and submits
//! a scrobble once the track has played long enough.
//!
//! The pipeline does no I/O. Every operation that it starts is recorded as a
//! [`Request`] for its owner to perform, and occupies a [`Slot`] until the owner
//! hands the outcome back as a [`Response`]. One call of [`Scrobbler::poll`] then
//! takes up what has completed.

use crate::metadata::{Artist, Track, TrackView};
use crate::util::SpotifyId;
use vstd::prelude::*;
use vstd::string::StringExecFns;

verus! {

/// How long a track must have been current before it is scrobbled, in
/// milliseconds. The track is eligible strictly after this time.
pub const SCROBBLE_THRESHOLD_MS: i64 = 20_000;

/// Credentials for the listening-history service.
#[derive(Debug, PartialEq, Eq)]
pub struct ScrobblerConfig {
    pub api_key: String,
    pub api_secret: String,
    pub username: String,
    pub password: String,
}

/// The credentials as the contracts see them.
pub ghost struct ScrobblerConfigView {
    pub api_key: Seq<char>,
    pub api_secret: Seq<char>,
    pub username: Seq<char>,
    pub password: Seq<char>,
}

impl View for ScrobblerConfig {
    type V = ScrobblerConfigView;

    open spec fn view(&self) -> ScrobblerConfigView {
        ScrobblerConfigView {
            api_key: self.api_key@,
            api_secret: self.api_secret@,
            username: self.username@,
            password: self.password@,
        }
    }
}

impl Clone for ScrobblerConfig {
    fn clone(&self) -> (res: Self)
        ensures
            res@ == self@,
    {
        ScrobblerConfig {
            api_key: self.api_key.clone(),
            api_secret: self.api_secret.clone(),
            username: self.username.clone(),
            password: self.password.clone(),
        }
    }
}

/// A failure of the pipeline, with a message for the log. Its view is the
/// message.
#[derive(Debug, PartialEq, Eq)]
pub struct ScrobbleError {
    msg: String,
}

impl View for ScrobbleError {
    type V = Seq<char>;

    closed spec fn view(&self) -> Seq<char> {
        self.msg@
    }
}

impl DeepView for ScrobbleError {
    type V = Seq<char>;

    open spec fn deep_view(&self) -> Seq<char> {
        self@
    }
}

impl Clone for ScrobbleError {
    fn clone(&self) -> (res: Self)
        ensures
            res@ == self@,
    {
        ScrobbleError { msg: self.msg.clone() }
    }
}

impl ScrobbleError {
    /// A failure with the message `msg`.
    pub fn new(msg: String) -> (err: ScrobbleError)
        ensures
            err@ == msg@,
    {
        ScrobbleError { msg: msg }
    }

    /// The message that the error was made with.
    pub fn message(&self) -> (msg: &String)
        ensures
            msg@ == self@,
    {
        &self.msg
    }
}

/// The outcome of an operation, seen through the views of its parts.
pub open spec fn outcome_view<T: View>(outcome: Result<T, ScrobbleError>) -> Result<
    T::V,
    Seq<char>,
> {
    match outcome {
        Ok(value) => Ok(value@),
        Err(err) => Err(err@),
    }
}

/// What a step reports of a failed operation: what was being done, then the
/// message of the failure.
pub open spec fn failure_view(stage: Seq<char>, cause: Seq<char>) -> Seq<char> {
    stage + ": "@ + cause
}

/// The failure that a step reports of an operation that failed with `cause`.
fn failure(stage: &str, cause: &ScrobbleError) -> (err: ScrobbleError)
    ensures
        err@ == failure_view(stage@, cause@),
{
    let mut msg = String::from_str(stage);
    msg.append(": ");
    msg.append(cause.msg.as_str());
    ScrobbleError::new(msg)
}

/// A listening event: the artist and title of a track, and its album.
#[derive(Debug, PartialEq, Eq)]
pub struct Scrobble {
    pub artist: String,
    pub track: String,
    pub album: String,
}

/// A listening event as the contracts see it.
pub ghost struct ScrobbleView {
    pub artist: Seq<char>,
    pub track: Seq<char>,
    pub album: Seq<char>,
}

impl View for Scrobble {
    type V = ScrobbleView;

    open spec fn view(&self) -> ScrobbleView {
        ScrobbleView { artist: self.artist@, track: self.track@, album: self.album@ }
    }
}

impl Clone for Scrobble {
    fn clone(&self) -> (res: Self)
        ensures
            res@ == self@,
    {
        Scrobble {
            artist: self.artist.clone(),
            track: self.track.clone(),
            album: self.album.clone(),
        }
    }
}

impl Scrobble {
    /// The listening event for a track by its artist, title and album.
    pub fn new(artist: String, track: String, album: String) -> (scrobble: Scrobble)
        ensures
            scrobble@ == (ScrobbleView { artist: artist@, track: track@, album: album@ }),
    {
        Scrobble { artist, track, album }
    }

    /// Whether two listening events name the same artist, title and album.
    pub fn same(&self, other: &Scrobble) -> (same: bool)
        ensures
            same == (self@ == other@),
    {
        self.artist == other.artist && self.track == other.track && self.album == other.album
    }
}

/// The listening event for a track title and the name of its primary artist.
/// The album is left unset.
pub open spec fn listening_event(artist: Seq<char>, track: Seq<char>) -> ScrobbleView {
    ScrobbleView { artist, track, album: Seq::empty() }
}

/// Which catalogue lookup a metadata fetch is waiting for: first the track,
/// then its primary artist.
#[derive(Debug, PartialEq, Eq)]
pub enum Lookup {
    Track(SpotifyId),
    Artist { artist: SpotifyId, track_name: String },
}

/// A pending lookup as the contracts see it.
pub ghost enum LookupView {
    Track(SpotifyId),
    Artist { artist: SpotifyId, track_name: Seq<char> },
}

impl View for Lookup {
    type V = LookupView;

    open spec fn view(&self) -> LookupView {
        match self {
            Lookup::Track(id) => LookupView::Track(*id),
            Lookup::Artist { artist, track_name } => LookupView::Artist {
                artist: *artist,
                track_name: track_name@,
            },
        }
    }
}

/// The place of one kind of operation.
#[derive(Debug, PartialEq, Eq)]
pub enum Slot<I, T> {
    /// No operation is in flight.
    Idle,
    /// An operation has been started and has not come back yet. It is known
    /// by what it was started with.
    Pending(I),
    /// The operation has come back, and the next step takes its outcome up.
    Completed(Result<T, ScrobbleError>),
    /// The operation failed and a step has reported the failure. It keeps its
    /// place until another operation takes it.
    Failed(ScrobbleError),
}

/// A slot as the contracts see it.
pub ghost enum SlotView<I, T> {
    Idle,
    Pending(I),
    Completed(Result<T, Seq<char>>),
    Failed(Seq<char>),
}

impl<I: View, T: View> View for Slot<I, T> {
    type V = SlotView<I::V, T::V>;

    open spec fn view(&self) -> SlotView<I::V, T::V> {
        match self {
            Slot::Idle => SlotView::Idle,
            Slot::Pending(id) => SlotView::Pending(id@),
            Slot::Completed(outcome) => SlotView::Completed(outcome_view(*outcome)),
            Slot::Failed(err) => SlotView::Failed(err@),
        }
    }
}

impl<I, T> SlotView<I, T> {
    /// Whether the slot holds an operation that succeeded and has not been
    /// taken up yet.
    pub open spec fn succeeded(self) -> bool {
        self matches SlotView::Completed(Ok(_))
    }
}

/// An operation that the pipeline has started and its owner is to perform.
#[derive(Debug, PartialEq, Eq)]
pub enum Request {
    Authenticate { username: String, password: String },
    Track(SpotifyId),
    Artist(SpotifyId),
    NowPlaying(Scrobble),
    Scrobble(Scrobble),
}

/// A request as the contracts see it.
pub ghost enum RequestView {
    Authenticate { username: Seq<char>, password: Seq<char> },
    Track(SpotifyId),
    Artist(SpotifyId),
    NowPlaying(ScrobbleView),
    Scrobble(ScrobbleView),
}

impl View for Request {
    type V = RequestView;

    open spec fn view(&self) -> RequestView {
        match self {
            Request::Authenticate { username, password } => RequestView::Authenticate {
                username: username@,
                password: password@,
            },
            Request::Track(id) => RequestView::Track(*id),
            Request::Artist(id) => RequestView::Artist(*id),
            Request::NowPlaying(track) => RequestView::NowPlaying(track@),
            Request::Scrobble(track) => RequestView::Scrobble(track@),
        }
    }
}

impl DeepView for Request {
    type V = RequestView;

    open spec fn deep_view(&self) -> RequestView {
        self@
    }
}

/// The outcome of an operation, handed back by whoever performed it. Each
/// names the operation it answers as the request did.
#[derive(Debug, PartialEq, Eq)]
pub enum Response {
    Authenticate(Result<(), ScrobbleError>),
    Track(SpotifyId, Result<Track, ScrobbleError>),
    Artist(SpotifyId, Result<Artist, ScrobbleError>),
    NowPlaying(Scrobble, Result<(), ScrobbleError>),
    Scrobble(Scrobble, Result<(), ScrobbleError>),
}

/// A response as the contracts see it.
pub ghost enum ResponseView {
    Authenticate(Result<(), Seq<char>>),
    Track(SpotifyId, Result<TrackView, Seq<char>>),
    Artist(SpotifyId, Result<Seq<char>, Seq<char>>),
    NowPlaying(ScrobbleView, Result<(), Seq<char>>),
    Scrobble(ScrobbleView, Result<(), Seq<char>>),
}

impl View for Response {
    type V = ResponseView;

    open spec fn view(&self) -> ResponseView {
        match self {
            Response::Authenticate(outcome) => ResponseView::Authenticate(outcome_view(*outcome)),
            Response::Track(id, outcome) => ResponseView::Track(*id, outcome_view(*outcome)),
            Response::Artist(id, outcome) => ResponseView::Artist(*id, outcome_view(*outcome)),
            Response::NowPlaying(track, outcome) => ResponseView::NowPlaying(
                track@,
                outcome_view(*outcome),
            ),
            Response::Scrobble(track, outcome) => ResponseView::Scrobble(
                track@,
                outcome_view(*outcome),
            ),
        }
    }
}

/// The pipeline as the contracts see it.
pub ghost struct ScrobblerView {
    pub config: ScrobblerConfigView,
    pub current_track_id: Option<SpotifyId>,
    pub current_track_start: Option<i64>,
    pub current_track_meta: Option<ScrobbleView>,
    pub current_track_scrobbled: bool,
    pub auth: SlotView<(), ()>,
    pub meta_fetch: SlotView<LookupView, ScrobbleView>,
    pub now_playing: SlotView<ScrobbleView, ()>,
    pub scrobble: SlotView<ScrobbleView, ()>,
    pub requests: Seq<RequestView>,
}

/// What one step of the pipeline reports: whether an operation advanced, or
/// the failure that it met.
pub type StepView = Result<bool, Seq<char>>;

impl ScrobblerView {
    /// The pipeline right after construction, before authentication is started.
    pub open spec fn initial(config: ScrobblerConfigView) -> ScrobblerView {
        ScrobblerView {
            config,
            current_track_id: None,
            current_track_start: None,
            current_track_meta: None,
            current_track_scrobbled: false,
            auth: SlotView::Idle,
            meta_fetch: SlotView::Idle,
            now_playing: SlotView::Idle,
            scrobble: SlotView::Idle,
            requests: Seq::empty(),
        }
    }

    /// The request to sign in with the configured credentials.
    pub open spec fn auth_request(self) -> RequestView {
        RequestView::Authenticate {
            username: self.config.username,
            password: self.config.password,
        }
    }

    /// Starts a sign-in; it takes the authentication slot.
    pub open spec fn start_auth(self) -> ScrobblerView {
        ScrobblerView {
            auth: SlotView::Pending(()),
            requests: self.requests.push(self.auth_request()),
            ..self
        }
    }

    /// The current track may be scrobbled: it has not been, no submission is
    /// in flight, and it has been current for more than the threshold.
    pub open spec fn can_scrobble_track(self, now: i64) -> bool {
        &&& !self.current_track_scrobbled
        &&& self.scrobble is Idle
        &&& self.current_track_start is Some
        &&& now - self.current_track_start->0 > SCROBBLE_THRESHOLD_MS
    }

    /// Submits the stored metadata. Without metadata nothing is submitted and
    /// the slot is left empty.
    pub open spec fn start_scrobble(self) -> ScrobblerView {
        match self.current_track_meta {
            Some(meta) => ScrobblerView {
                scrobble: SlotView::Pending(meta),
                requests: self.requests.push(RequestView::Scrobble(meta)),
                ..self
            },
            None => ScrobblerView { scrobble: SlotView::Idle, ..self },
        }
    }

    /// Starts a scrobble if the current track may be scrobbled.
    pub open spec fn scrobble_if_due(self, now: i64) -> ScrobblerView {
        if self.can_scrobble_track(now) {
            self.start_scrobble()
        } else {
            self
        }
    }

    /// Makes `track_id` the current track as of `now`: its metadata is not
    /// known yet, and it has not been scrobbled.
    pub open spec fn set_new_track(self, track_id: SpotifyId, now: i64) -> ScrobblerView {
        ScrobblerView {
            current_track_id: Some(track_id),
            current_track_start: Some(now),
            current_track_meta: None,
            current_track_scrobbled: false,
            ..self
        }
    }

    /// Asks the catalogue for the track; the fetch takes the metadata slot.
    pub open spec fn fetch_track_meta(self, track_id: SpotifyId) -> ScrobblerView {
        ScrobblerView {
            meta_fetch: SlotView::Pending(LookupView::Track(track_id)),
            requests: self.requests.push(RequestView::Track(track_id)),
            ..self
        }
    }

    /// Follows the broadcast to `track_id` at the time `now`. The track that
    /// is current already changes nothing. Another one has the previous
    /// track scrobbled if that is due, becomes the current track, and has its
    /// metadata asked for.
    pub open spec fn update_current_track(self, track_id: SpotifyId, now: i64) -> ScrobblerView {
        if self.current_track_id == Some(track_id) {
            self
        } else {
            self.scrobble_if_due(now).set_new_track(track_id, now).fetch_track_meta(track_id)
        }
    }

    /// Announces `track` as now playing; the notification takes its slot.
    pub open spec fn send_now_playing(self, track: ScrobbleView) -> ScrobblerView {
        ScrobblerView {
            now_playing: SlotView::Pending(track),
            requests: self.requests.push(RequestView::NowPlaying(track)),
            ..self
        }
    }

    /// Takes up the outcome of the authentication.
    pub open spec fn poll_auth(self) -> (ScrobblerView, StepView) {
        match self.auth {
            SlotView::Completed(Ok(_)) => (
                ScrobblerView { auth: SlotView::Idle, ..self },
                Ok(true),
            ),
            SlotView::Completed(Err(err)) => (
                ScrobblerView { auth: SlotView::Failed(err), ..self },
                Err(failure_view("Authentication error"@, err)),
            ),
            _ => (self, Ok(false)),
        }
    }

    /// Takes up the outcome of the scrobble submission.
    pub open spec fn poll_scrobble(self) -> (ScrobblerView, StepView) {
        match self.scrobble {
            SlotView::Completed(Ok(_)) => (
                ScrobblerView { scrobble: SlotView::Idle, current_track_scrobbled: true, ..self },
                Ok(true),
            ),
            SlotView::Completed(Err(err)) => (
                ScrobblerView { scrobble: SlotView::Failed(err), ..self },
                Err(failure_view("Scrobbling error"@, err)),
            ),
            _ => (self, Ok(false)),
        }
    }

    /// Takes up the outcome of the metadata fetch: the metadata is stored and
    /// announced as now playing.
    pub open spec fn poll_meta_fetch(self) -> (ScrobblerView, StepView) {
        match self.meta_fetch {
            SlotView::Completed(Ok(track)) => (
                ScrobblerView {
                    meta_fetch: SlotView::Idle,
                    current_track_meta: Some(track),
                    ..self
                }.send_now_playing(track),
                Ok(true),
            ),
            SlotView::Completed(Err(err)) => (
                ScrobblerView { meta_fetch: SlotView::Failed(err), ..self },
                Err(failure_view("Metadata fetch error"@, err)),
            ),
            _ => (self, Ok(false)),
        }
    }

    /// Takes up the outcome of the now-playing notification.
    pub open spec fn poll_now_playing(self) -> (ScrobblerView, StepView) {
        match self.now_playing {
            SlotView::Completed(Ok(_)) => (
                ScrobblerView { now_playing: SlotView::Idle, ..self },
                Ok(true),
            ),
            SlotView::Completed(Err(err)) => (
                ScrobblerView { now_playing: SlotView::Failed(err), ..self },
                Err(failure_view("Now Playing error"@, err)),
            ),
            _ => (self, Ok(false)),
        }
    }

    /// One step of the pipeline. In this order: the authentication is taken
    /// up; a scrobble is started if one is due; the scrobble submission, the
    /// metadata fetch and the now-playing notification are taken up. An
    /// operation that succeeded leaves its slot. The first one that failed
    /// ends the step, which reports the failure; the operation stays in its
    /// slot as failed and is not reported again. Otherwise the step reports
    /// whether any operation was taken up.
    pub open spec fn step(self, now: i64) -> (ScrobblerView, StepView) {
        let (s1, r1) = self.poll_auth();
        if r1 is Err {
            (s1, r1)
        } else {
            let (s2, r2) = s1.scrobble_if_due(now).poll_scrobble();
            if r2 is Err {
                (s2, r2)
            } else {
                let (s3, r3) = s2.poll_meta_fetch();
                if r3 is Err {
                    (s3, r3)
                } else {
                    let (s4, r4) = s3.poll_now_playing();
                    if r4 is Err {
                        (s4, r4)
                    } else {
                        (s4, Ok(r1->Ok_0 || r2->Ok_0 || r3->Ok_0 || r4->Ok_0))
                    }
                }
            }
        }
    }

    /// Whether the metadata fetch waits for the track `id` to be looked up.
    pub open spec fn awaits_track(self, id: SpotifyId) -> bool {
        self.meta_fetch == SlotView::<LookupView, ScrobbleView>::Pending(LookupView::Track(id))
    }

    /// Hands the pipeline the outcome of an operation. The outcome is taken
    /// only where the slot still waits for that very operation; otherwise
    /// nothing changes. A track that was found leads on to the lookup of its
    /// primary artist, and the artist's name completes the fetch. A track
    /// without artists fails the fetch.
    pub open spec fn complete(self, response: ResponseView) -> ScrobblerView {
        match response {
            ResponseView::Authenticate(outcome) => if self.auth is Pending {
                ScrobblerView { auth: SlotView::Completed(outcome), ..self }
            } else {
                self
            },
            ResponseView::Track(id, outcome) => if self.awaits_track(id) {
                match outcome {
                    Ok(track) => if track.artists.len() > 0 {
                        ScrobblerView {
                            meta_fetch: SlotView::Pending(
                                LookupView::Artist {
                                    artist: track.artists[0],
                                    track_name: track.name,
                                },
                            ),
                            requests: self.requests.push(RequestView::Artist(track.artists[0])),
                            ..self
                        }
                    } else {
                        ScrobblerView {
                            meta_fetch: SlotView::Completed(Err("No artists"@)),
                            ..self
                        }
                    },
                    Err(err) => ScrobblerView { meta_fetch: SlotView::Completed(Err(err)), ..self },
                }
            } else {
                self
            },
            ResponseView::Artist(id, outcome) => match self.meta_fetch {
                SlotView::Pending(LookupView::Artist { artist, track_name }) => if artist == id {
                    match outcome {
                        Ok(name) => ScrobblerView {
                            meta_fetch: SlotView::Completed(Ok(listening_event(name, track_name))),
                            ..self
                        },
                        Err(err) => ScrobblerView {
                            meta_fetch: SlotView::Completed(Err(err)),
                            ..self
                        },
                    }
                } else {
                    self
                },
                _ => self,
            },
            ResponseView::NowPlaying(track, outcome) => if self.now_playing == SlotView::<
                ScrobbleView,
                (),
            >::Pending(track) {
                ScrobblerView { now_playing: SlotView::Completed(outcome), ..self }
            } else {
                self
            },
            ResponseView::Scrobble(track, outcome) => if self.scrobble == SlotView::<
                ScrobbleView,
                (),
            >::Pending(track) {
                ScrobblerView { scrobble: SlotView::Completed(outcome), ..self }
            } else {
                self
            },
        }
    }

    /// The pipeline with one more request for its owner.
    pub open spec fn request(self, request: RequestView) -> ScrobblerView {
        ScrobblerView { requests: self.requests.push(request), ..self }
    }

    /// How many operations have succeeded and wait to be taken up.
    pub open spec fn ready_count(self) -> nat {
        let auth: nat = if self.auth.succeeded() { 1 } else { 0 };
        let meta_fetch: nat = if self.meta_fetch.succeeded() { 1 } else { 0 };
        let now_playing: nat = if self.now_playing.succeeded() { 1 } else { 0 };
        let scrobble: nat = if self.scrobble.succeeded() { 1 } else { 0 };
        auth + meta_fetch + now_playing + scrobble
    }
}

/// What a step reports, with a failure seen as its message.
pub open spec fn step_view(report: Result<bool, ScrobbleError>) -> StepView {
    match report {
        Ok(progress) => Ok(progress),
        Err(err) => Err(err@),
    }
}

/// The scrobble pipeline.
#[derive(Debug)]
pub struct Scrobbler {
    config: ScrobblerConfig,
    current_track_id: Option<SpotifyId>,
    current_track_start: Option<i64>,
    current_track_meta: Option<Scrobble>,
    current_track_scrobbled: bool,
    auth: Slot<(), ()>,
    meta_fetch: Slot<Lookup, Scrobble>,
    now_playing: Slot<Scrobble, ()>,
    scrobble: Slot<Scrobble, ()>,
    requests: Vec<Request>,
}

impl View for Scrobbler {
    type V = ScrobblerView;

    closed spec fn view(&self) -> ScrobblerView {
        ScrobblerView {
            config: self.config@,
            current_track_id: self.current_track_id,
            current_track_start: self.current_track_start,
            current_track_meta: match self.current_track_meta {
                Some(meta) => Some(meta@),
                None => None,
            },
            current_track_scrobbled: self.current_track_scrobbled,
            auth: self.auth@,
            meta_fetch: self.meta_fetch@,
            now_playing: self.now_playing@,
            scrobble: self.scrobble@,
            requests: self.requests.deep_view(),
        }
    }
}

impl Scrobbler {
    /// A pipeline for the given credentials. Authentication is started at
    /// once.
    pub fn new(config: ScrobblerConfig) -> (scrobbler: Scrobbler)
        ensures
            scrobbler@ == ScrobblerView::initial(config@).start_auth(),
    {
        let mut scrobbler = Scrobbler {
            config: config,
            current_track_id: None,
            current_track_start: None,
            current_track_meta: None,
            current_track_scrobbled: false,
            auth: Slot::Idle,
            meta_fetch: Slot::Idle,
            now_playing: Slot::Idle,
            scrobble: Slot::Idle,
            requests: Vec::new(),
        };
        assert(scrobbler.requests.deep_view() =~= Seq::<RequestView>::empty());
        scrobbler.start_auth();
        scrobbler
    }

    /// Records `request` for the owner.
    fn push_request(&mut self, request: Request)
        ensures
            final(self)@ == old(self)@.request(request@),
    {
        self.requests.push(request);
        assert(self.requests.deep_view() =~= old(self).requests.deep_view().push(request@));
    }

    /// Starts a sign-in with the configured credentials.
    pub fn start_auth(&mut self)
        ensures
            final(self)@ == old(self)@.start_auth(),
    {
        self.auth = self.auth();
    }

    /// Asks for a sign-in with the configured credentials and returns what
    /// then occupies the authentication slot.
    pub fn auth(&mut self) -> (slot: Slot<(), ()>)
        ensures
            final(self)@ == old(self)@.request(old(self)@.auth_request()),
            slot@ == SlotView::<(), ()>::Pending(()),
    {
        let request = Request::Authenticate {
            username: self.config.username.clone(),
            password: self.config.password.clone(),
        };
        self.push_request(request);
        Slot::Pending(())
    }

    /// Follows the broadcast to `track_id`. The track that is already current
    /// changes nothing. Another one first has the previous track scrobbled if
    /// that is due, then becomes current as of `now`, and its metadata is
    /// asked for.
    pub fn update_current_track(&mut self, track_id: SpotifyId, now: i64)
        ensures
            final(self)@ == old(self)@.update_current_track(track_id, now),
    {
        let new_track = match self.current_track_id {
            None => true,
            Some(id) => id != track_id,
        };
        if !new_track {
            return ;
        }
        if self.can_scrobble_track(now) {
            self.start_scrobble();
        }
        self.set_new_track(track_id, now);
        self.meta_fetch = self.get_track_meta(track_id);
    }

    /// Makes `track_id` the current track as of `now`: no metadata yet, not
    /// scrobbled.
    pub fn set_new_track(&mut self, track_id: SpotifyId, now: i64)
        ensures
            final(self)@ == old(self)@.set_new_track(track_id, now),
    {
        self.current_track_id = Some(track_id);
        self.current_track_start = Some(now);
        self.current_track_meta = None;
        self.current_track_scrobbled = false;
    }

    /// Asks the catalogue for `track_id` and returns what then occupies the
    /// metadata slot.
    pub fn get_track_meta(&mut self, track_id: SpotifyId) -> (slot: Slot<Lookup, Scrobble>)
        ensures
            final(self)@ == old(self)@.request(RequestView::Track(track_id)),
            slot@ == SlotView::<LookupView, ScrobbleView>::Pending(LookupView::Track(track_id)),
    {
        self.push_request(Request::Track(track_id));
        Slot::Pending(Lookup::Track(track_id))
    }

    /// Asks for `track` to be announced as now playing and returns what then
    /// occupies the now-playing slot.
    pub fn send_now_playing(&mut self, track: Scrobble) -> (slot: Slot<Scrobble, ()>)
        ensures
            final(self)@ == old(self)@.request(RequestView::NowPlaying(track@)),
            slot@ == SlotView::<ScrobbleView, ()>::Pending(track@),
    {
        self.push_request(Request::NowPlaying(track.clone()));
        Slot::Pending(track)
    }

    /// Submits the metadata of the current track, if there is any.
    pub fn start_scrobble(&mut self)
        ensures
            final(self)@ == old(self)@.start_scrobble(),
    {
        let meta = match &self.current_track_meta {
            Some(meta) => Some(meta.clone()),
            None => None,
        };
        self.scrobble = match meta {
            Some(scrobble) => self.send_scrobble(scrobble),
            None => Slot::Idle,
        };
    }

    /// Asks for `scrobble` to be submitted and returns what then occupies the
    /// scrobble slot.
    pub fn send_scrobble(&mut self, scrobble: Scrobble) -> (slot: Slot<Scrobble, ()>)
        ensures
            final(self)@ == old(self)@.request(RequestView::Scrobble(scrobble@)),
            slot@ == SlotView::<ScrobbleView, ()>::Pending(scrobble@),
    {
        self.push_request(Request::Scrobble(scrobble.clone()));
        Slot::Pending(scrobble)
    }

    /// Whether the current track may be scrobbled at the time `now`.
    pub fn can_scrobble_track(&self, now: i64) -> (can: bool)
        ensures
            can == self@.can_scrobble_track(now),
    {
        if self.current_track_scrobbled {
            return false;
        }
        match self.scrobble {
            Slot::Idle => {},
            _ => {
                return false;
            },
        }
        match self.current_track_start {
            Some(start_time) => {
                let play_time: i128 = now as i128 - start_time as i128;
                play_time > SCROBBLE_THRESHOLD_MS as i128
            },
            None => false,
        }
    }

    fn poll_auth(&mut self) -> (report: Result<bool, ScrobbleError>)
        ensures
            (final(self)@, step_view(report)) == old(self)@.poll_auth(),
    {
        let failed = match &self.auth {
            Slot::Completed(Err(err)) => Some(err.clone()),
            Slot::Completed(Ok(_)) => None,
            _ => {
                return Ok(false);
            },
        };
        match failed {
            Some(err) => {
                let report = failure("Authentication error", &err);
                self.auth = Slot::Failed(err);
                Err(report)
            },
            None => {
                self.auth = Slot::Idle;
                Ok(true)
            },
        }
    }

    fn poll_scrobble(&mut self) -> (report: Result<bool, ScrobbleError>)
        ensures
            (final(self)@, step_view(report)) == old(self)@.poll_scrobble(),
    {
        let failed = match &self.scrobble {
            Slot::Completed(Err(err)) => Some(err.clone()),
            Slot::Completed(Ok(_)) => None,
            _ => {
                return Ok(false);
            },
        };
        match failed {
            Some(err) => {
                let report = failure("Scrobbling error", &err);
                self.scrobble = Slot::Failed(err);
                Err(report)
            },
            None => {
                self.scrobble = Slot::Idle;
                self.current_track_scrobbled = true;
                Ok(true)
            },
        }
    }

    fn poll_meta_fetch(&mut self) -> (report: Result<bool, ScrobbleError>)
        ensures
            (final(self)@, step_view(report)) == old(self)@.poll_meta_fetch(),
    {
        let outcome = match &self.meta_fetch {
            Slot::Completed(Err(err)) => Err(err.clone()),
            Slot::Completed(Ok(track)) => Ok(track.clone()),
            _ => {
                return Ok(false);
            },
        };
        match outcome {
            Err(err) => {
                let report = failure("Metadata fetch error", &err);
                self.meta_fetch = Slot::Failed(err);
                Err(report)
            },
            Ok(track) => {
                self.meta_fetch = Slot::Idle;
                self.now_playing = self.send_now_playing(track.clone());
                self.current_track_meta = Some(track);
                Ok(true)
            },
        }
    }

    fn poll_now_playing(&mut self) -> (report: Result<bool, ScrobbleError>)
        ensures
            (final(self)@, step_view(report)) == old(self)@.poll_now_playing(),
    {
        let failed = match &self.now_playing {
            Slot::Completed(Err(err)) => Some(err.clone()),
            Slot::Completed(Ok(_)) => None,
            _ => {
                return Ok(false);
            },
        };
        match failed {
            Some(err) => {
                let report = failure("Now Playing error", &err);
                self.now_playing = Slot::Failed(err);
                Err(report)
            },
            None => {
                self.now_playing = Slot::Idle;
                Ok(true)
            },
        }
    }

    /// One step of the pipeline at the time `now`.
    pub fn poll(&mut self, now: i64) -> (report: Result<bool, ScrobbleError>)
        ensures
            (final(self)@, step_view(report)) == old(self)@.step(now),
    {
        let authenticated = match self.poll_auth() {
            Ok(progress) => progress,
            Err(err) => {
                return Err(err);
            },
        };
        if self.can_scrobble_track(now) {
            self.start_scrobble();
        }
        let scrobbled = match self.poll_scrobble() {
            Ok(progress) => progress,
            Err(err) => {
                return Err(err);
            },
        };
        let fetched = match self.poll_meta_fetch() {
            Ok(progress) => progress,
            Err(err) => {
                return Err(err);
            },
        };
        let announced = match self.poll_now_playing() {
            Ok(progress) => progress,
            Err(err) => {
                return Err(err);
            },
        };
        Ok(authenticated || scrobbled || fetched || announced)
    }

    /// Hands the pipeline the outcome of an operation.
    pub fn complete(&mut self, response: Response)
        ensures
            final(self)@ == old(self)@.complete(response@),
    {
        match response {
            Response::Authenticate(outcome) => {
                let waiting = match &self.auth {
                    Slot::Pending(_) => true,
                    _ => false,
                };
                if waiting {
                    self.auth = Slot::Completed(outcome);
                }
            },
            Response::Track(id, outcome) => {
                let waiting = match &self.meta_fetch {
                    Slot::Pending(Lookup::Track(pending)) => *pending == id,
                    _ => false,
                };
                if waiting {
                    match outcome {
                        Ok(track) => {
                            if track.artists.len() > 0 {
                                let artist = track.artists[0];
                                self.push_request(Request::Artist(artist));
                                self.meta_fetch = Slot::Pending(
                                    Lookup::Artist { artist: artist, track_name: track.name },
                                );
                            } else {
                                self.meta_fetch = Slot::Completed(
                                    Err(ScrobbleError::new(String::from_str("No artists"))),
                                );
                            }
                        },
                        Err(err) => {
                            self.meta_fetch = Slot::Completed(Err(err));
                        },
                    }
                }
            },
            Response::Artist(id, outcome) => {
                let track_name = match &self.meta_fetch {
                    Slot::Pending(Lookup::Artist { artist, track_name }) => if *artist == id {
                        Some(track_name.clone())
                    } else {
                        None
                    },
                    _ => None,
                };
                match track_name {
                    Some(track_name) => {
                        self.meta_fetch = match outcome {
                            Ok(artist) => Slot::Completed(
                                Ok(Scrobble::new(artist.name, track_name, String::new())),
                            ),
                            Err(err) => Slot::Completed(Err(err)),
                        };
                    },
                    None => {},
                }
            },
            Response::NowPlaying(track, outcome) => {
                let waiting = match &self.now_playing {
                    Slot::Pending(pending) => pending.same(&track),
                    _ => false,
                };
                if waiting {
                    self.now_playing = Slot::Completed(outcome);
                }
            },
            Response::Scrobble(track, outcome) => {
                let waiting = match &self.scrobble {
                    Slot::Pending(pending) => pending.same(&track),
                    _ => false,
                };
                if waiting {
                    self.scrobble = Slot::Completed(outcome);
                }
            },
        }
    }

    /// The credentials that the pipeline was made with.
    pub fn config(&self) -> (config: &ScrobblerConfig)
        ensures
            config@ == self@.config,
    {
        &self.config
    }

    /// The track that the pipeline follows.
    pub fn current_track_id(&self) -> (track_id: Option<SpotifyId>)
        ensures
            track_id == self@.current_track_id,
    {
        self.current_track_id
    }

    /// When the current track became current.
    pub fn current_track_start(&self) -> (start: Option<i64>)
        ensures
            start == self@.current_track_start,
    {
        self.current_track_start
    }

    /// The metadata of the current track, once it is known.
    pub fn current_track_meta(&self) -> (meta: Option<&Scrobble>)
        ensures
            meta is Some == self@.current_track_meta is Some,
            meta is Some ==> meta->0@ == self@.current_track_meta->0,
    {
        self.current_track_meta.as_ref()
    }

    /// Whether the current track has been scrobbled.
    pub fn current_track_scrobbled(&self) -> (scrobbled: bool)
        ensures
            scrobbled == self@.current_track_scrobbled,
    {
        self.current_track_scrobbled
    }

    /// The slot of the authentication.
    pub fn auth_slot(&self) -> (slot: &Slot<(), ()>)
        ensures
            slot@ == self@.auth,
    {
        &self.auth
    }

    /// The slot of the metadata fetch.
    pub fn meta_fetch_slot(&self) -> (slot: &Slot<Lookup, Scrobble>)
        ensures
            slot@ == self@.meta_fetch,
    {
        &self.meta_fetch
    }

    /// The slot of the now-playing notification.
    pub fn now_playing_slot(&self) -> (slot: &Slot<Scrobble, ()>)
        ensures
            slot@ == self@.now_playing,
    {
        &self.now_playing
    }

    /// The slot of the scrobble submission.
    pub fn scrobble_slot(&self) -> (slot: &Slot<Scrobble, ()>)
        ensures
            slot@ == self@.scrobble,
    {
        &self.scrobble
    }

    /// The requests recorded since they were last taken, oldest first.
    pub fn requests(&self) -> (requests: &Vec<Request>)
        ensures
            requests.deep_view() == self@.requests,
    {
        &self.requests
    }

    /// Hands over the requests recorded since the last call, oldest first.
    pub fn take_requests(&mut self) -> (requests: Vec<Request>)
        ensures
            requests.deep_view() == old(self)@.requests,
            final(self)@ == (ScrobblerView { requests: Seq::empty(), ..old(self)@ }),
    {
        let mut requests: Vec<Request> = Vec::new();
        core::mem::swap(&mut requests, &mut self.requests);
        assert(self.requests.deep_view() =~= Seq::<RequestView>::empty());
        requests
    }
}

} // verus!
