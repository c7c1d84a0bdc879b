//! The session orchestrator: the decisions of one run, as a machine that is
//! told what happened and answers what to do next. Loading, listening, talking
//! to the token endpoint and saving are done by the caller.

use vstd::prelude::*;
use crate::exchange::AuthError;
use crate::listener::ListenerError;
use crate::record::{CredentialRecord, RecordView};

verus! {

/// Why a run was aborted.
#[derive(Debug, Clone, Copy, PartialEq, Eq, Structural)]
pub enum SessionError {
    /// The listener delivered no code.
    Listener(ListenerError),
    /// The token endpoint gave no credential record.
    Auth(AuthError),
    /// A freshly obtained record could not be saved.
    Storage,
    /// The run was told of something that it was not waiting for.
    OutOfTurn,
}

/// Where a run stands.
#[derive(Debug, Clone, PartialEq, Eq)]
pub enum Session {
    /// Nothing has been done yet.
    Start,
    /// The token store is being read.
    Loading,
    /// The browser has been sent off and the listener awaits the code.
    Authorizing,
    /// An authorization code is being exchanged.
    Exchanging,
    /// A refresh token is being exchanged.
    Refreshing,
    /// This record, just obtained, is being saved.
    Saving(CredentialRecord),
    /// This record is valid, and its access token has been handed out.
    Ready(CredentialRecord),
    /// The run was aborted.
    Failed(SessionError),
}

/// What the run is told.
#[derive(Debug, PartialEq, Eq)]
pub enum Event {
    /// The run begins.
    Begin,
    /// The token store held this record, or none, when it was read at `now`.
    Loaded { record: Option<CredentialRecord>, now: u64 },
    /// The listener was torn down with this result.
    Code(Result<String, ListenerError>),
    /// The authorization-code grant ended with this outcome.
    Exchanged(Result<CredentialRecord, AuthError>),
    /// The refresh-token grant ended with this outcome.
    Refreshed(Result<CredentialRecord, AuthError>),
    /// The record was saved, or the token store failed to save it.
    Saved(bool),
}

/// What the run asks for.
#[derive(Debug, Clone, PartialEq, Eq)]
pub enum Action {
    /// Read the token store.
    Load,
    /// Send the browser to the authorization URL and await the code.
    Authorize,
    /// Exchange this authorization code.
    Exchange(String),
    /// Exchange this refresh token.
    Refresh(String),
    /// Save this record.
    Save(CredentialRecord),
    /// Go on with this access token.
    Use(String),
    /// Stop with this error.
    Abort(SessionError),
}

/// A run's state as a plain value.
pub enum SessionView {
    Start,
    Loading,
    Authorizing,
    Exchanging,
    Refreshing,
    Saving(RecordView),
    Ready(RecordView),
    Failed(SessionError),
}

/// An event as a plain value.
pub enum EventView {
    Begin,
    Loaded { record: Option<RecordView>, now: nat },
    Code(Result<Seq<char>, ListenerError>),
    Exchanged(Result<RecordView, AuthError>),
    Refreshed(Result<RecordView, AuthError>),
    Saved(bool),
}

/// An action as a plain value.
pub enum ActionView {
    Load,
    Authorize,
    Exchange(Seq<char>),
    Refresh(Seq<char>),
    Save(RecordView),
    Use(Seq<char>),
    Abort(SessionError),
}

impl View for Session {
    type V = SessionView;

    open spec fn view(&self) -> SessionView {
        match self {
            Session::Start => SessionView::Start,
            Session::Loading => SessionView::Loading,
            Session::Authorizing => SessionView::Authorizing,
            Session::Exchanging => SessionView::Exchanging,
            Session::Refreshing => SessionView::Refreshing,
            Session::Saving(record) => SessionView::Saving(record@),
            Session::Ready(record) => SessionView::Ready(record@),
            Session::Failed(e) => SessionView::Failed(*e),
        }
    }
}

impl View for Event {
    type V = EventView;

    open spec fn view(&self) -> EventView {
        match self {
            Event::Begin => EventView::Begin,
            Event::Loaded { record, now } => EventView::Loaded {
                record: match record {
                    Some(stored) => Some(stored@),
                    None => None,
                },
                now: *now as nat,
            },
            Event::Code(Ok(code)) => EventView::Code(Ok(code@)),
            Event::Code(Err(e)) => EventView::Code(Err(*e)),
            Event::Exchanged(Ok(record)) => EventView::Exchanged(Ok(record@)),
            Event::Exchanged(Err(e)) => EventView::Exchanged(Err(*e)),
            Event::Refreshed(Ok(record)) => EventView::Refreshed(Ok(record@)),
            Event::Refreshed(Err(e)) => EventView::Refreshed(Err(*e)),
            Event::Saved(stored) => EventView::Saved(*stored),
        }
    }
}

impl View for Action {
    type V = ActionView;

    open spec fn view(&self) -> ActionView {
        match self {
            Action::Load => ActionView::Load,
            Action::Authorize => ActionView::Authorize,
            Action::Exchange(code) => ActionView::Exchange(code@),
            Action::Refresh(refresh_token) => ActionView::Refresh(refresh_token@),
            Action::Save(record) => ActionView::Save(record@),
            Action::Use(access_token) => ActionView::Use(access_token@),
            Action::Abort(e) => ActionView::Abort(*e),
        }
    }
}

/// The state and the action of a run that is aborted with `e`.
pub open spec fn aborted(e: SessionError) -> (SessionView, ActionView) {
    (SessionView::Failed(e), ActionView::Abort(e))
}

/// The decision procedure. A run that has begun reads the store. Without a
/// stored record it authorizes, exchanges the code and saves the record. With a
/// stored record it uses it if it is fresh, and else refreshes it and saves the
/// new one. A record is handed out for use only once it is saved. A failure of
/// the listener, of a grant or of saving aborts the run, and so does an event
/// that the run was not waiting for.
pub open spec fn next(state: SessionView, event: EventView) -> (SessionView, ActionView) {
    match (state, event) {
        (SessionView::Start, EventView::Begin) => (SessionView::Loading, ActionView::Load),
        (SessionView::Loading, EventView::Loaded { record: None, now }) => (
            SessionView::Authorizing,
            ActionView::Authorize,
        ),
        (SessionView::Loading, EventView::Loaded { record: Some(stored), now }) => if stored.is_fresh(
            now as int,
        ) {
            (SessionView::Ready(stored), ActionView::Use(stored.access_token))
        } else {
            (SessionView::Refreshing, ActionView::Refresh(stored.refresh_token))
        },
        (SessionView::Authorizing, EventView::Code(Ok(code))) => (
            SessionView::Exchanging,
            ActionView::Exchange(code),
        ),
        (SessionView::Authorizing, EventView::Code(Err(e))) => aborted(SessionError::Listener(e)),
        (SessionView::Exchanging, EventView::Exchanged(Ok(record))) => (
            SessionView::Saving(record),
            ActionView::Save(record),
        ),
        (SessionView::Exchanging, EventView::Exchanged(Err(e))) => aborted(SessionError::Auth(e)),
        (SessionView::Refreshing, EventView::Refreshed(Ok(record))) => (
            SessionView::Saving(record),
            ActionView::Save(record),
        ),
        (SessionView::Refreshing, EventView::Refreshed(Err(e))) => aborted(SessionError::Auth(e)),
        (SessionView::Saving(record), EventView::Saved(true)) => (
            SessionView::Ready(record),
            ActionView::Use(record.access_token),
        ),
        (SessionView::Saving(record), EventView::Saved(false)) => aborted(SessionError::Storage),
        _ => aborted(SessionError::OutOfTurn),
    }
}

/// The state after each of `events` in turn.
pub open spec fn state_after(state: SessionView, events: Seq<EventView>) -> SessionView
    decreases events.len(),
{
    if events.len() == 0 {
        state
    } else {
        state_after(next(state, events[0]).0, events.drop_first())
    }
}

/// The actions that a run answers `events` with, one for each.
pub open spec fn actions_of(state: SessionView, events: Seq<EventView>) -> Seq<ActionView>
    decreases events.len(),
{
    if events.len() == 0 {
        Seq::<ActionView>::empty()
    } else {
        seq![next(state, events[0]).1] + actions_of(next(state, events[0]).0, events.drop_first())
    }
}

impl Session {
    /// A run that has not begun.
    pub fn new() -> (r: Session)
        ensures
            r@ == SessionView::Start,
    {
        Session::Start
    }

    /// Takes one event and answers with the next state and what to do.
    pub fn step(self, event: Event) -> (r: (Session, Action))
        ensures
            (r.0@, r.1@) == next(self@, event@),
    {
        match (self, event) {
            (Session::Start, Event::Begin) => (Session::Loading, Action::Load),
            (Session::Loading, Event::Loaded { record: None, now: _ }) => (
                Session::Authorizing,
                Action::Authorize,
            ),
            (Session::Loading, Event::Loaded { record: Some(stored), now }) => {
                if stored.is_fresh(now) {
                    let access_token = stored.access_token.clone();
                    (Session::Ready(stored), Action::Use(access_token))
                } else {
                    (Session::Refreshing, Action::Refresh(stored.refresh_token))
                }
            },
            (Session::Authorizing, Event::Code(Ok(code))) => (
                Session::Exchanging,
                Action::Exchange(code),
            ),
            (Session::Authorizing, Event::Code(Err(e))) => abort(SessionError::Listener(e)),
            (Session::Exchanging, Event::Exchanged(Ok(record))) => {
                let saved = record.duplicate();
                (Session::Saving(record), Action::Save(saved))
            },
            (Session::Exchanging, Event::Exchanged(Err(e))) => abort(SessionError::Auth(e)),
            (Session::Refreshing, Event::Refreshed(Ok(record))) => {
                let saved = record.duplicate();
                (Session::Saving(record), Action::Save(saved))
            },
            (Session::Refreshing, Event::Refreshed(Err(e))) => abort(SessionError::Auth(e)),
            (Session::Saving(record), Event::Saved(true)) => {
                let access_token = record.access_token.clone();
                (Session::Ready(record), Action::Use(access_token))
            },
            (Session::Saving(_), Event::Saved(false)) => abort(SessionError::Storage),
            _ => abort(SessionError::OutOfTurn),
        }
    }

    /// The access token of a run that is ready, and of no other.
    pub fn access_token(&self) -> (r: Option<String>)
        ensures
            match self@ {
                SessionView::Ready(record) => crate::pairs::text_view(r) == Some(record.access_token),
                _ => r is None,
            },
    {
        match self {
            Session::Ready(record) => Some(record.access_token.clone()),
            _ => None,
        }
    }

    /// Whether the run is over: ready or failed.
    pub fn is_over(&self) -> (r: bool)
        ensures
            r == (self@ is Ready || self@ is Failed),
    {
        match self {
            Session::Ready(_) => true,
            Session::Failed(_) => true,
            _ => false,
        }
    }
}

/// The failed state together with the action that reports it.
pub fn abort(e: SessionError) -> (r: (Session, Action))
    ensures
        (r.0@, r.1@) == aborted(e),
{
    (Session::Failed(e), Action::Abort(e))
}

/// A stored record that is no longer fresh is refreshed before anything is
/// used, and one that is fresh is used as it is, with nothing sent or saved.
pub proof fn lemma_stale_record_is_refreshed(stored: RecordView, now: nat)
    ensures
        !stored.is_fresh(now as int) ==> next(
            SessionView::Loading,
            EventView::Loaded { record: Some(stored), now },
        ) == (SessionView::Refreshing, ActionView::Refresh(stored.refresh_token)),
        stored.is_fresh(now as int) ==> next(
            SessionView::Loading,
            EventView::Loaded { record: Some(stored), now },
        ) == (SessionView::Ready(stored), ActionView::Use(stored.access_token)),
{
}

/// A record is saved only when a grant has just yielded it. So a grant that
/// fails, whichever it is, leaves the token store as it was.
pub proof fn lemma_save_only_after_grant(state: SessionView, event: EventView)
    ensures
        next(state, event).1 matches ActionView::Save(record) ==> next(state, event).0
            == SessionView::Saving(record) && ((state is Exchanging && event
            == EventView::Exchanged(Ok(record))) || (state is Refreshing && event
            == EventView::Refreshed(Ok(record)))),
        event matches EventView::Refreshed(Err(e)) ==> !(next(state, event).1 is Save),
        event matches EventView::Exchanged(Err(e)) ==> !(next(state, event).1 is Save),
{
}

/// A failed grant aborts the run with the grant's own error.
pub proof fn lemma_failed_grant_aborts(e: AuthError)
    ensures
        next(SessionView::Exchanging, EventView::Exchanged(Err(e))) == aborted(
            SessionError::Auth(e),
        ),
        next(SessionView::Refreshing, EventView::Refreshed(Err(e))) == aborted(
            SessionError::Auth(e),
        ),
{
}

/// An access token is handed out only from a stored record that is fresh, or
/// from a record that has just been saved; the run is then ready with that record.
pub proof fn lemma_use_only_valid_token(state: SessionView, event: EventView)
    ensures
        next(state, event).1 matches ActionView::Use(access_token) ==> used_validly(
            state,
            event,
            access_token,
        ),
        next(state, event).1 matches ActionView::Use(access_token) ==> (next(
            state,
            event,
        ).0 matches SessionView::Ready(record) && record.access_token == access_token),
{
}

/// `access_token` belongs to a stored record that `event` reports as loaded and
/// that is fresh, or to the record whose saving `event` confirms.
pub open spec fn used_validly(state: SessionView, event: EventView, access_token: Seq<char>) -> bool {
    match (state, event) {
        (SessionView::Loading, EventView::Loaded { record: Some(stored), now }) => stored.is_fresh(
            now as int,
        ) && stored.access_token == access_token,
        (SessionView::Saving(record), EventView::Saved(true)) => record.access_token
            == access_token,
        _ => false,
    }
}

/// The run is aborted exactly when it enters the failed state, and both name
/// the same error.
pub proof fn lemma_abort_iff_failed(state: SessionView, event: EventView)
    ensures
        next(state, event).1 is Abort <==> next(state, event).0 is Failed,
        next(state, event).1 matches ActionView::Abort(e) ==> next(state, event).0
            == SessionView::Failed(e),
{
}

/// A run that is over stays over: whatever it is told then, it is failed.
pub proof fn lemma_over_is_final(state: SessionView, events: Seq<EventView>)
    requires
        state is Ready || state is Failed,
        events.len() > 0,
    ensures
        state_after(state, events) is Failed,
    decreases events.len(),
{
    let following = next(state, events[0]).0;
    assert(following is Failed);
    if events.drop_first().len() > 0 {
        lemma_over_is_final(following, events.drop_first());
    } else {
        assert(state_after(following, events.drop_first()) == following);
    }
}

/// A first run, told in turn that the store is empty, that the listener
/// captured `code`, that the exchange yielded `record` and that it was saved,
/// asks in turn to load, to authorize, to exchange `code`, to save `record` and
/// to use its access token, and ends ready with `record`.
pub proof fn lemma_first_authorization_run(code: Seq<char>, record: RecordView, now: nat)
    ensures
        ({
            let events = seq![
                EventView::Begin,
                EventView::Loaded { record: None, now },
                EventView::Code(Ok(code)),
                EventView::Exchanged(Ok(record)),
                EventView::Saved(true),
            ];
            &&& state_after(SessionView::Start, events) == SessionView::Ready(record)
            &&& actions_of(SessionView::Start, events) == seq![
                ActionView::Load,
                ActionView::Authorize,
                ActionView::Exchange(code),
                ActionView::Save(record),
                ActionView::Use(record.access_token),
            ]
        }),
{
    let events = seq![
        EventView::Begin,
        EventView::Loaded { record: None, now },
        EventView::Code(Ok(code)),
        EventView::Exchanged(Ok(record)),
        EventView::Saved(true),
    ];
    let e1 = events.drop_first();
    let e2 = e1.drop_first();
    let e3 = e2.drop_first();
    let e4 = e3.drop_first();
    let e5 = e4.drop_first();
    assert(e5.len() == 0);
    reveal_with_fuel(state_after, 6);
    reveal_with_fuel(actions_of, 6);
    assert(actions_of(SessionView::Start, events) =~= seq![
        ActionView::Load,
        ActionView::Authorize,
        ActionView::Exchange(code),
        ActionView::Save(record),
        ActionView::Use(record.access_token),
    ]);
}

/// A run that finds a stale record, told in turn that the refresh yielded
/// `renewed` and that it was saved, asks in turn to load, to refresh with the
/// stored refresh token, to save `renewed` and to use its access token: the
/// stale access token is never handed out.
pub proof fn lemma_refresh_run(stored: RecordView, renewed: RecordView, now: nat)
    requires
        !stored.is_fresh(now as int),
    ensures
        ({
            let events = seq![
                EventView::Begin,
                EventView::Loaded { record: Some(stored), now },
                EventView::Refreshed(Ok(renewed)),
                EventView::Saved(true),
            ];
            &&& state_after(SessionView::Start, events) == SessionView::Ready(renewed)
            &&& actions_of(SessionView::Start, events) == seq![
                ActionView::Load,
                ActionView::Refresh(stored.refresh_token),
                ActionView::Save(renewed),
                ActionView::Use(renewed.access_token),
            ]
        }),
{
    let events = seq![
        EventView::Begin,
        EventView::Loaded { record: Some(stored), now },
        EventView::Refreshed(Ok(renewed)),
        EventView::Saved(true),
    ];
    let e1 = events.drop_first();
    let e2 = e1.drop_first();
    let e3 = e2.drop_first();
    let e4 = e3.drop_first();
    assert(e4.len() == 0);
    reveal_with_fuel(state_after, 5);
    reveal_with_fuel(actions_of, 5);
    assert(actions_of(SessionView::Start, events) =~= seq![
        ActionView::Load,
        ActionView::Refresh(stored.refresh_token),
        ActionView::Save(renewed),
        ActionView::Use(renewed.access_token),
    ]);
}

/// A run that finds a stale record and whose refresh fails with `e` asks to
/// load, to refresh, and then aborts with `e`: it never asks to save, so what
/// the token store holds stays as it was.
pub proof fn lemma_failed_refresh_run(stored: RecordView, e: AuthError, now: nat)
    requires
        !stored.is_fresh(now as int),
    ensures
        ({
            let events = seq![
                EventView::Begin,
                EventView::Loaded { record: Some(stored), now },
                EventView::Refreshed(Err(e)),
            ];
            &&& state_after(SessionView::Start, events) == SessionView::Failed(
                SessionError::Auth(e),
            )
            &&& actions_of(SessionView::Start, events) == seq![
                ActionView::Load,
                ActionView::Refresh(stored.refresh_token),
                ActionView::Abort(SessionError::Auth(e)),
            ]
        }),
{
    let events = seq![
        EventView::Begin,
        EventView::Loaded { record: Some(stored), now },
        EventView::Refreshed(Err(e)),
    ];
    let e1 = events.drop_first();
    let e2 = e1.drop_first();
    let e3 = e2.drop_first();
    assert(e3.len() == 0);
    reveal_with_fuel(state_after, 4);
    reveal_with_fuel(actions_of, 4);
    assert(actions_of(SessionView::Start, events) =~= seq![
        ActionView::Load,
        ActionView::Refresh(stored.refresh_token),
        ActionView::Abort(SessionError::Auth(e)),
    ]);
}

} // verus!
