//! The one action of a run: find the track that is playing and like it unless
//! it is liked already. The calls to the music service and the notification are
//! the caller's; what to call next and what to tell the user are decided here.

use vstd::prelude::*;
use vstd::string::StringExecFns;
use crate::exchange::{is_success, success_status};

verus! {

/// Told where the service reports no track.
pub const NO_TRACK: &'static str = "No track currently playing.";

/// Told where the track was liked before.
pub const ALREADY_LIKED: &'static str = "Playing track has already been liked!";

/// Told where the like was accepted.
pub const LIKING: &'static str = "Liking track...";

/// Told where the like was refused.
pub const LIKE_FAILED: &'static str = "Failed to like track.";

/// The track that is playing, as far as the action needs it.
#[derive(Debug, Clone, PartialEq, Eq)]
pub struct TrackItem {
    pub id: String,
    pub name: String,
    pub artists: Vec<String>,
}

/// A track as plain values.
pub struct TrackView {
    pub id: Seq<char>,
    pub name: Seq<char>,
    pub artists: Seq<Seq<char>>,
}

/// A list of texts as plain values.
pub open spec fn texts_view(v: Seq<String>) -> Seq<Seq<char>> {
    v.map_values(|s: String| s@)
}

impl View for TrackItem {
    type V = TrackView;

    open spec fn view(&self) -> TrackView {
        TrackView { id: self.id@, name: self.name@, artists: texts_view(self.artists@) }
    }
}

/// `parts` in a row, with `separator` between each two.
pub open spec fn joined(parts: Seq<Seq<char>>, separator: Seq<char>) -> Seq<char>
    decreases parts.len(),
{
    if parts.len() == 0 {
        Seq::<char>::empty()
    } else if parts.len() == 1 {
        parts[0]
    } else {
        joined(parts.drop_last(), separator) + separator + parts.last()
    }
}

/// The heading of every notification: the track's name and its artists.
pub open spec fn title_text(track: TrackView) -> Seq<char> {
    "Now playing: "@ + track.name + " by "@ + joined(track.artists, ", "@)
}

/// Puts `parts` in a row, with `separator` between each two.
pub fn join(parts: &Vec<String>, separator: &str) -> (r: String)
    ensures
        r@ == joined(texts_view(parts@), separator@),
{
    let mut out = String::new();
    let mut i: usize = 0;
    while i < parts.len()
        invariant
            i <= parts.len(),
            out@ == joined(texts_view(parts@).take(i as int), separator@),
        decreases parts.len() - i,
    {
        let ghost before = texts_view(parts@).take(i as int);
        let ghost after = texts_view(parts@).take(i + 1);
        proof {
            assert(after.drop_last() =~= before);
            assert(after.last() == parts@[i as int]@);
        }
        if i > 0 {
            out.append(separator);
        }
        out.append(parts[i].as_str());
        proof {
            if i == 0 {
                assert(out@ =~= parts@[0]@);
            }
        }
        i += 1;
    }
    proof {
        assert(texts_view(parts@).take(parts.len() as int) =~= texts_view(parts@));
    }
    out
}

/// The heading of the notifications about `track`.
pub fn now_playing_title(track: &TrackItem) -> (r: String)
    ensures
        r@ == title_text(track@),
{
    let mut title = String::from_str("Now playing: ");
    title.append(track.name.as_str());
    title.append(" by ");
    let artists = join(&track.artists, ", ");
    title.append(artists.as_str());
    title
}

/// What a reply of the music service amounts to, by its status alone.
#[derive(Debug, Clone, Copy, PartialEq, Eq, Structural)]
pub enum ReplyKind {
    /// Success without content: nothing is playing.
    Empty,
    /// A non-success status: the body is an error text.
    Failed,
    /// Success with a body to decode.
    Payload,
}

/// How the status of the reply to the track lookup is read.
pub open spec fn track_reply(status: int) -> ReplyKind {
    if status == 204 {
        ReplyKind::Empty
    } else if success_status(status) {
        ReplyKind::Payload
    } else {
        ReplyKind::Failed
    }
}

/// Reads the status of the reply to the track lookup.
pub fn playing_track(status: u16) -> (r: ReplyKind)
    ensures
        r == track_reply(status as int),
{
    if status == 204 {
        ReplyKind::Empty
    } else if is_success(status) {
        ReplyKind::Payload
    } else {
        ReplyKind::Failed
    }
}

/// Whether the track counts as liked: the first flag of a successful reply, and
/// `false` where the reply failed or holds no flag.
pub open spec fn liked(status: int, flags: Seq<bool>) -> bool {
    success_status(status) && flags.len() > 0 && flags[0]
}

/// Reads the reply to the like-status check. `flags` is the decoded body of a
/// successful reply and is not looked at for any other.
pub fn is_liked(status: u16, flags: &Vec<bool>) -> (r: bool)
    ensures
        r == liked(status as int, flags@),
{
    is_success(status) && flags.len() > 0 && flags[0]
}

/// Reads the reply to the like submission: it took effect if the status
/// reports success.
pub fn like_song(status: u16) -> (r: bool)
    ensures
        r == success_status(status as int),
{
    is_success(status)
}

/// Where the action stands.
#[derive(Debug, Clone, PartialEq, Eq)]
pub enum Liking {
    /// Nothing has been asked yet.
    Start,
    /// The playing track is being looked up.
    Fetching,
    /// It is being checked whether this track is liked.
    Checking(TrackItem),
    /// The like for this track is being submitted.
    Submitting(TrackItem),
    /// The user has been told the outcome.
    Done,
}

/// What the action is told.
#[derive(Debug, Clone, PartialEq, Eq)]
pub enum LikingEvent {
    /// The action begins.
    Begin,
    /// The lookup found this track, or none.
    Track(Option<TrackItem>),
    /// The track is liked already, or is not.
    LikeStatus(bool),
    /// The like was accepted, or was not.
    Submitted(bool),
}

/// What the action asks for.
#[derive(Debug, Clone, PartialEq, Eq)]
pub enum LikingAction {
    /// Look up the playing track.
    FetchTrack,
    /// Check whether the track with this id is liked.
    CheckLiked(String),
    /// Like the track with this id.
    SubmitLike(String),
    /// Notify the user with this heading and this message.
    Notify { title: String, message: String },
    /// Print this line.
    Report(String),
    /// Do nothing more.
    Stop,
}

/// The action's state as a plain value.
pub enum LikingView {
    Start,
    Fetching,
    Checking(TrackView),
    Submitting(TrackView),
    Done,
}

/// An event as a plain value.
pub enum LikingEventView {
    Begin,
    Track(Option<TrackView>),
    LikeStatus(bool),
    Submitted(bool),
}

/// An action as a plain value.
pub enum LikingActionView {
    FetchTrack,
    CheckLiked(Seq<char>),
    SubmitLike(Seq<char>),
    Notify { title: Seq<char>, message: Seq<char> },
    Report(Seq<char>),
    Stop,
}

impl View for Liking {
    type V = LikingView;

    open spec fn view(&self) -> LikingView {
        match self {
            Liking::Start => LikingView::Start,
            Liking::Fetching => LikingView::Fetching,
            Liking::Checking(track) => LikingView::Checking(track@),
            Liking::Submitting(track) => LikingView::Submitting(track@),
            Liking::Done => LikingView::Done,
        }
    }
}

impl View for LikingEvent {
    type V = LikingEventView;

    open spec fn view(&self) -> LikingEventView {
        match self {
            LikingEvent::Begin => LikingEventView::Begin,
            LikingEvent::Track(Some(track)) => LikingEventView::Track(Some(track@)),
            LikingEvent::Track(None) => LikingEventView::Track(None),
            LikingEvent::LikeStatus(liked) => LikingEventView::LikeStatus(*liked),
            LikingEvent::Submitted(accepted) => LikingEventView::Submitted(*accepted),
        }
    }
}

impl View for LikingAction {
    type V = LikingActionView;

    open spec fn view(&self) -> LikingActionView {
        match self {
            LikingAction::FetchTrack => LikingActionView::FetchTrack,
            LikingAction::CheckLiked(id) => LikingActionView::CheckLiked(id@),
            LikingAction::SubmitLike(id) => LikingActionView::SubmitLike(id@),
            LikingAction::Notify { title, message } => LikingActionView::Notify {
                title: title@,
                message: message@,
            },
            LikingAction::Report(line) => LikingActionView::Report(line@),
            LikingAction::Stop => LikingActionView::Stop,
        }
    }
}

/// The notification about `track` with `message`, which ends the action.
pub open spec fn notified(track: TrackView, message: Seq<char>) -> (LikingView, LikingActionView) {
    (LikingView::Done, LikingActionView::Notify { title: title_text(track), message })
}

/// The decisions of the action. The playing track is looked up; without one
/// the user is told so. A track is checked, and liked only where it is not
/// liked yet. The user is notified of which of the three it was. Anything told
/// out of turn ends the action.
pub open spec fn next_liking(state: LikingView, event: LikingEventView) -> (
    LikingView,
    LikingActionView,
) {
    match (state, event) {
        (LikingView::Start, LikingEventView::Begin) => (
            LikingView::Fetching,
            LikingActionView::FetchTrack,
        ),
        (LikingView::Fetching, LikingEventView::Track(None)) => (
            LikingView::Done,
            LikingActionView::Report(NO_TRACK@),
        ),
        (LikingView::Fetching, LikingEventView::Track(Some(track))) => (
            LikingView::Checking(track),
            LikingActionView::CheckLiked(track.id),
        ),
        (LikingView::Checking(track), LikingEventView::LikeStatus(true)) => notified(
            track,
            ALREADY_LIKED@,
        ),
        (LikingView::Checking(track), LikingEventView::LikeStatus(false)) => (
            LikingView::Submitting(track),
            LikingActionView::SubmitLike(track.id),
        ),
        (LikingView::Submitting(track), LikingEventView::Submitted(true)) => notified(
            track,
            LIKING@,
        ),
        (LikingView::Submitting(track), LikingEventView::Submitted(false)) => notified(
            track,
            LIKE_FAILED@,
        ),
        _ => (LikingView::Done, LikingActionView::Stop),
    }
}

/// The notification about `track` with `message`.
pub fn notify(track: &TrackItem, message: &str) -> (r: (Liking, LikingAction))
    ensures
        (r.0@, r.1@) == notified(track@, message@),
{
    (
        Liking::Done,
        LikingAction::Notify { title: now_playing_title(track), message: message.to_owned() },
    )
}

impl Liking {
    /// An action that has not begun.
    pub fn new() -> (r: Liking)
        ensures
            r@ == LikingView::Start,
    {
        Liking::Start
    }

    /// Takes one event and answers with the next state and what to do.
    pub fn step(self, event: LikingEvent) -> (r: (Liking, LikingAction))
        ensures
            (r.0@, r.1@) == next_liking(self@, event@),
    {
        match (self, event) {
            (Liking::Start, LikingEvent::Begin) => (Liking::Fetching, LikingAction::FetchTrack),
            (Liking::Fetching, LikingEvent::Track(None)) => (
                Liking::Done,
                LikingAction::Report(NO_TRACK.to_owned()),
            ),
            (Liking::Fetching, LikingEvent::Track(Some(track))) => {
                let id = track.id.clone();
                (Liking::Checking(track), LikingAction::CheckLiked(id))
            },
            (Liking::Checking(track), LikingEvent::LikeStatus(true)) => notify(
                &track,
                ALREADY_LIKED,
            ),
            (Liking::Checking(track), LikingEvent::LikeStatus(false)) => {
                let id = track.id.clone();
                (Liking::Submitting(track), LikingAction::SubmitLike(id))
            },
            (Liking::Submitting(track), LikingEvent::Submitted(true)) => notify(&track, LIKING),
            (Liking::Submitting(track), LikingEvent::Submitted(false)) => notify(
                &track,
                LIKE_FAILED,
            ),
            _ => (Liking::Done, LikingAction::Stop),
        }
    }
}

/// The action is idempotent: a like is submitted only for the track that was
/// just found not to be liked, and never for one that is liked already.
pub proof fn lemma_like_only_when_not_liked(state: LikingView, event: LikingEventView)
    ensures
        next_liking(state, event).1 matches LikingActionView::SubmitLike(id) ==> (
        state matches LikingView::Checking(track) && track.id == id && event
            == LikingEventView::LikeStatus(false)),
        event == LikingEventView::LikeStatus(true) ==> !(next_liking(state, event).1 is SubmitLike),
{
}

/// Every notification ends the action, and so does every event told out of
/// turn: once done, nothing more is asked of the service.
pub proof fn lemma_done_asks_nothing(event: LikingEventView)
    ensures
        next_liking(LikingView::Done, event) == (LikingView::Done, LikingActionView::Stop),
{
}

/// A single artist is named as is, and two are parted by a comma and a space.
pub proof fn lemma_joined_small(a: Seq<char>, b: Seq<char>, separator: Seq<char>)
    ensures
        joined(Seq::<Seq<char>>::empty(), separator) == Seq::<char>::empty(),
        joined(seq![a], separator) == a,
        joined(seq![a, b], separator) == a + separator + b,
{
    assert(seq![a, b].drop_last() =~= seq![a]);
    reveal_with_fuel(joined, 3);
}

} // verus!
