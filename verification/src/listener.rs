//! The authorization listener as a one-shot state machine. The socket and the
//! waiting are the caller's; what a request does to the listener, which page it
//! is answered with and what the waiting flow receives are decided here.

use vstd::prelude::*;
use crate::pairs::text_view;

verus! {

/// The loopback address and port that the listener binds: those of the
/// redirect address.
pub const LISTEN_ADDRESS: &'static str = "127.0.0.1:8888";

/// The one path that the listener serves.
pub const CALLBACK_PATH: &'static str = "/callback";

/// The page that answers a request which carried a code.
pub const CONFIRMATION_PAGE: &'static str =
    "<h1>Spotify auth complete. You can close this window.</h1>";

/// The page that answers a request which carried none.
pub const FAILURE_PAGE: &'static str = "<h1>Error: No code received</h1>";

/// Why the listener delivered no code.
#[derive(Debug, Clone, Copy, PartialEq, Eq, Structural)]
pub enum ListenerError {
    /// The redirect address could not be bound.
    BindFailed,
    /// The listener ended without a request that carried a code.
    NoCode,
}

/// One of the two static pages.
#[derive(Debug, Clone, Copy, PartialEq, Eq, Structural)]
pub enum Page {
    Confirmation,
    Failure,
}

/// The listener. It starts `Idle`, is `Listening` once bound, is settled by the
/// first request as `CodeCaptured` or `NoCode`, and is `Stopped` once torn down.
/// While it is `Listening` the hand-off is pending; it is completed at most once
/// and read at most once.
#[derive(Debug, Clone, PartialEq, Eq)]
pub enum Listener {
    Idle,
    Listening,
    CodeCaptured(String),
    NoCode,
    Stopped,
}

/// The listener's state as a plain value.
pub enum Phase {
    Idle,
    Listening,
    CodeCaptured(Seq<char>),
    NoCode,
    Stopped,
}

impl View for Listener {
    type V = Phase;

    open spec fn view(&self) -> Phase {
        match self {
            Listener::Idle => Phase::Idle,
            Listener::Listening => Phase::Listening,
            Listener::CodeCaptured(code) => Phase::CodeCaptured(code@),
            Listener::NoCode => Phase::NoCode,
            Listener::Stopped => Phase::Stopped,
        }
    }
}

/// What the waiting flow receives, as plain values.
pub open spec fn delivery_view(r: Result<String, ListenerError>) -> Result<
    Seq<char>,
    ListenerError,
> {
    match r {
        Ok(code) => Ok(code@),
        Err(e) => Err(e),
    }
}

impl Phase {
    /// How far along its one way the listener is.
    pub open spec fn rank(self) -> nat {
        match self {
            Phase::Idle => 0,
            Phase::Listening => 1,
            Phase::CodeCaptured(_) => 2,
            Phase::NoCode => 2,
            Phase::Stopped => 3,
        }
    }

    /// The first request has been served.
    pub open spec fn settled(self) -> bool {
        self is CodeCaptured || self is NoCode
    }

    /// The state after an attempt to bind: an idle listener listens if the
    /// address was bound and is stopped if not; any other is left as it is.
    pub open spec fn after_listen(self, bound: bool) -> Phase {
        if self is Idle {
            if bound {
                Phase::Listening
            } else {
                Phase::Stopped
            }
        } else {
            self
        }
    }

    /// Whether an attempt to bind leaves the listener listening for the first time.
    pub open spec fn listen_result(self, bound: bool) -> Result<(), ListenerError> {
        if self is Idle && bound {
            Ok(())
        } else {
            Err(ListenerError::BindFailed)
        }
    }

    /// The state after a request to the callback path: a listening listener is
    /// settled by it, with the code or without; any other is left as it is.
    pub open spec fn after_request(self, code: Option<Seq<char>>) -> Phase {
        match self {
            Phase::Listening => match code {
                Some(c) => Phase::CodeCaptured(c),
                None => Phase::NoCode,
            },
            _ => self,
        }
    }

    /// The state after each of `requests` in turn.
    pub open spec fn after_requests(self, requests: Seq<Option<Seq<char>>>) -> Phase
        decreases requests.len(),
    {
        if requests.len() == 0 {
            self
        } else {
            self.after_request(requests[0]).after_requests(requests.drop_first())
        }
    }

    /// What the waiting flow receives when the listener is torn down.
    pub open spec fn delivery(self) -> Result<Seq<char>, ListenerError> {
        match self {
            Phase::CodeCaptured(c) => Ok(c),
            _ => Err(ListenerError::NoCode),
        }
    }
}

/// The page that answers a request: confirmation if it carried a code, failure
/// if it carried none.
pub open spec fn page_for(code: Option<Seq<char>>) -> Page {
    if code is Some {
        Page::Confirmation
    } else {
        Page::Failure
    }
}

impl Page {
    /// The text of the page.
    pub open spec fn text(self) -> Seq<char> {
        match self {
            Page::Confirmation => CONFIRMATION_PAGE@,
            Page::Failure => FAILURE_PAGE@,
        }
    }

    /// The static HTML of the page.
    pub fn html(&self) -> (r: &'static str)
        ensures
            r@ == self.text(),
    {
        match self {
            Page::Confirmation => CONFIRMATION_PAGE,
            Page::Failure => FAILURE_PAGE,
        }
    }
}

impl Listener {
    /// A listener that has not been bound yet.
    pub fn new() -> (r: Listener)
        ensures
            r@ == Phase::Idle,
    {
        Listener::Idle
    }

    /// Records the outcome of binding the redirect address. Only an idle
    /// listener that was bound returns `Ok`; it then listens.
    pub fn listen(&mut self, bound: bool) -> (r: Result<(), ListenerError>)
        ensures
            final(self)@ == old(self)@.after_listen(bound),
            r == old(self)@.listen_result(bound),
    {
        match self {
            Listener::Idle => {
                if bound {
                    *self = Listener::Listening;
                    Ok(())
                } else {
                    *self = Listener::Stopped;
                    Err(ListenerError::BindFailed)
                }
            },
            _ => Err(ListenerError::BindFailed),
        }
    }

    /// Serves one request to the callback path. `code` is the request's `code`
    /// parameter, if it has one. The first request settles the listener; a later
    /// one changes nothing and is answered all the same.
    pub fn callback(&mut self, code: Option<String>) -> (r: Page)
        ensures
            final(self)@ == old(self)@.after_request(text_view(code)),
            r == page_for(text_view(code)),
    {
        let page = if code.is_some() {
            Page::Confirmation
        } else {
            Page::Failure
        };
        match self {
            Listener::Listening => {
                *self = match code {
                    Some(c) => Listener::CodeCaptured(c),
                    None => Listener::NoCode,
                };
            },
            _ => {},
        }
        page
    }

    /// Whether the first request has been served, so that the waiting flow can
    /// be woken.
    pub fn is_settled(&self) -> (r: bool)
        ensures
            r == self@.settled(),
    {
        match self {
            Listener::CodeCaptured(_) => true,
            Listener::NoCode => true,
            _ => false,
        }
    }

    /// Tears the listener down and hands the waiting flow its result: the code
    /// if one was captured, `NoCode` in every other state.
    pub fn finish(&mut self) -> (r: Result<String, ListenerError>)
        ensures
            final(self)@ == Phase::Stopped,
            delivery_view(r) == old(self)@.delivery(),
    {
        let mut last = Listener::Stopped;
        std::mem::swap(self, &mut last);
        match last {
            Listener::CodeCaptured(code) => Ok(code),
            _ => Err(ListenerError::NoCode),
        }
    }
}

/// Once a request has been served, no later request changes the listener.
pub proof fn lemma_later_requests_change_nothing(phase: Phase, requests: Seq<Option<Seq<char>>>)
    requires
        !(phase is Listening),
    ensures
        phase.after_requests(requests) == phase,
    decreases requests.len(),
{
    if requests.len() > 0 {
        lemma_later_requests_change_nothing(phase, requests.drop_first());
    }
}

/// The first request decides: whatever requests follow it, in whatever number,
/// the listener stays as the first one left it. So a first request with a code
/// has exactly that code delivered, and a first request without one has none
/// delivered.
pub proof fn lemma_first_request_decides(
    first: Option<Seq<char>>,
    later: Seq<Option<Seq<char>>>,
)
    ensures
        Phase::Listening.after_requests(seq![first] + later) == Phase::Listening.after_request(
            first,
        ),
        first matches Some(code) ==> Phase::Listening.after_requests(
            seq![first] + later,
        ).delivery() == Ok::<Seq<char>, ListenerError>(code),
        first is None ==> Phase::Listening.after_requests(seq![first] + later).delivery() == Err::<
            Seq<char>,
            ListenerError,
        >(ListenerError::NoCode),
{
    let all = seq![first] + later;
    assert(all[0] == first);
    assert(all.drop_first() =~= later);
    lemma_later_requests_change_nothing(Phase::Listening.after_request(first), later);
}

/// A listener that has been torn down delivers nothing: the code is read at
/// most once.
pub proof fn lemma_stopped_delivers_nothing()
    ensures
        Phase::Stopped.delivery() == Err::<Seq<char>, ListenerError>(ListenerError::NoCode),
        forall|code: Option<Seq<char>>| #[trigger] Phase::Stopped.after_request(code) == Phase::Stopped,
        forall|bound: bool| #[trigger] Phase::Stopped.after_listen(bound) == Phase::Stopped,
{
}

/// No step leads back: binding and requests never lower the listener's rank,
/// and a request never moves a listener that is not listening.
pub proof fn lemma_no_way_back(phase: Phase, bound: bool, code: Option<Seq<char>>)
    ensures
        phase.rank() <= phase.after_listen(bound).rank(),
        phase.rank() <= phase.after_request(code).rank(),
        phase.after_request(code) != phase ==> phase is Listening && phase.after_request(
            code,
        ).settled(),
        phase.after_listen(bound) != phase ==> phase is Idle,
{
}

} // verus!
