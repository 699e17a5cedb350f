//! The application's core state: the request being composed, the outcomes that
//! wait to be shown, and the one text that is on display.

use crate::channel::{after_receive, after_send, received, ResultChannel};
use crate::outcome::{Method, PendingRequest, TransportOutcome};
use crate::processor::{display_text, process};
use crate::state::{default_state, opt_text, ReqtAppState, ReqtAppStateView};
use vstd::prelude::*;

verus! {

/// The application's core state.
pub struct ReqtApp {
    state: ReqtAppState,
    raw_url: String,
    show_env_window: bool,
    channel: ResultChannel,
    response: Option<String>,
    redraw_bound: bool,
}

/// The mathematical value of a [`ReqtApp`].
pub ghost struct ReqtAppView {
    /// What the user has selected.
    pub state: ReqtAppStateView,
    /// The address that the next request goes to.
    pub raw_url: Seq<char>,
    /// Whether the window of environments is open.
    pub show_env_window: bool,
    /// The outcomes that have arrived and were not shown yet, oldest first.
    pub pending: Seq<TransportOutcome>,
    /// The text on display, if any outcome was shown yet.
    pub response: Option<Seq<char>>,
    /// Whether the host is to be asked for a redraw when an outcome arrives.
    pub redraw_bound: bool,
}

/// The address that a fresh application starts with.
pub open spec fn default_url() -> Seq<char> {
    "https://nekos.best/api/v2/hug?amount=10"@
}

/// The value of a fresh application.
pub open spec fn fresh(redraw_bound: bool) -> ReqtAppView {
    ReqtAppView {
        state: default_state(),
        raw_url: default_url(),
        show_env_window: false,
        pending: Seq::empty(),
        response: None,
        redraw_bound,
    }
}

/// The application after an outcome has arrived.
pub open spec fn after_complete(app: ReqtAppView, outcome: TransportOutcome) -> ReqtAppView {
    ReqtAppView { pending: after_send(app.pending, outcome), ..app }
}

/// The application after one tick of the polling loop: the oldest outcome that
/// waits, if there is one, leaves the queue and its text takes the display.
pub open spec fn after_poll(app: ReqtAppView) -> ReqtAppView {
    match received(app.pending) {
        Some(outcome) => ReqtAppView {
            pending: after_receive(app.pending),
            response: Some(display_text(outcome@)),
            ..app
        },
        None => app,
    }
}

impl View for ReqtApp {
    type V = ReqtAppView;

    closed spec fn view(&self) -> ReqtAppView {
        ReqtAppView {
            state: self.state@,
            raw_url: self.raw_url@,
            show_env_window: self.show_env_window,
            pending: self.channel@,
            response: opt_text(self.response),
            redraw_bound: self.redraw_bound,
        }
    }
}

impl Default for ReqtApp {
    /// A fresh application that asks nobody for a redraw.
    fn default() -> (r: Self)
        ensures
            r@ == fresh(false),
    {
        ReqtApp::new(false)
    }
}

impl ReqtApp {
    /// A fresh application. `redraw_bound` says whether the host has a way to
    /// be asked for a redraw.
    pub fn new(redraw_bound: bool) -> (r: Self)
        ensures
            r@ == fresh(redraw_bound),
    {
        ReqtApp {
            state: ReqtAppState::default(),
            raw_url: "https://nekos.best/api/v2/hug?amount=10".to_owned(),
            show_env_window: false,
            channel: ResultChannel::new(),
            response: None,
            redraw_bound,
        }
    }

    /// The request to issue now: a GET for the address as it stands, which is
    /// not checked in any way. Nothing waits for its outcome.
    pub fn send_request(&self) -> (r: PendingRequest)
        ensures
            r.url@ == self@.raw_url,
            r.method == Method::Get,
    {
        PendingRequest::get(self.raw_url.clone())
    }

    /// Takes in the outcome of a request that has completed, behind those that
    /// wait already. Returns whether the host is to be asked for a redraw.
    pub fn complete(&mut self, outcome: TransportOutcome) -> (redraw: bool)
        ensures
            final(self)@ == after_complete(old(self)@, outcome),
            redraw == old(self)@.redraw_bound,
    {
        self.channel.send(outcome);
        self.redraw_bound
    }

    /// One tick of the polling loop. Where an outcome waits, the oldest one
    /// leaves the queue and its text replaces what was on display; where none
    /// does, nothing changes. Returns whether an outcome was taken.
    pub fn poll(&mut self) -> (taken: bool)
        ensures
            final(self)@ == after_poll(old(self)@),
            taken == (old(self)@.pending.len() > 0),
    {
        match self.channel.try_receive() {
            Some(outcome) => {
                self.response = Some(process(outcome));
                true
            },
            None => false,
        }
    }

    /// The text on display.
    pub fn response(&self) -> (r: Option<&str>)
        ensures
            r is Some == self@.response is Some,
            r matches Some(t) ==> Some(t@) == self@.response,
    {
        match &self.response {
            Some(t) => Some(t.as_str()),
            None => None,
        }
    }

    /// The address that the next request goes to.
    pub fn raw_url(&self) -> (r: &str)
        ensures
            r@ == self@.raw_url,
    {
        self.raw_url.as_str()
    }

    /// Replaces the address that the next request goes to.
    pub fn set_raw_url(&mut self, url: String)
        ensures
            final(self)@ == (ReqtAppView { raw_url: url@, ..old(self)@ }),
    {
        self.raw_url = url;
    }

    /// Whether the window of environments is open.
    pub fn show_env_window(&self) -> (r: bool)
        ensures
            r == self@.show_env_window,
    {
        self.show_env_window
    }

    /// Opens or closes the window of environments.
    pub fn set_show_env_window(&mut self, show: bool)
        ensures
            final(self)@ == (ReqtAppView { show_env_window: show, ..old(self)@ }),
    {
        self.show_env_window = show;
    }

    /// What the user has selected.
    pub fn state(&self) -> (r: &ReqtAppState)
        ensures
            r@ == self@.state,
    {
        &self.state
    }

    /// The number of outcomes that wait to be shown.
    pub fn pending(&self) -> (r: usize)
        ensures
            r == self@.pending.len(),
    {
        self.channel.len()
    }

    /// Whether the host is asked for a redraw when an outcome arrives.
    pub fn redraw_bound(&self) -> (r: bool)
        ensures
            r == self@.redraw_bound,
    {
        self.redraw_bound
    }
}

/// A tick with nothing waiting changes nothing, however often it comes and
/// whether or not a request is under way.
pub proof fn lemma_poll_idle(app: ReqtAppView)
    requires
        app.pending.len() == 0,
    ensures
        after_poll(app) == app,
{
}

/// One outcome is shown by exactly one tick. Where nothing waits and one
/// outcome arrives, the next tick takes it and puts its text on display, and
/// every tick after that one finds nothing and changes nothing.
pub proof fn lemma_one_outcome_one_hit(app: ReqtAppView, outcome: TransportOutcome)
    requires
        app.pending.len() == 0,
    ensures
        received(after_complete(app, outcome).pending) == Some(outcome),
        after_poll(after_complete(app, outcome)) == (ReqtAppView {
            response: Some(display_text(outcome@)),
            ..app
        }),
        after_poll(after_poll(after_complete(app, outcome))) == after_poll(
            after_complete(app, outcome),
        ),
{
    let arrived = after_complete(app, outcome);
    assert(arrived.pending.len() == 1);
    assert(after_receive(arrived.pending) =~= app.pending);
}

/// Outcomes are shown in the order in which they arrived, not in the order of
/// their requests, and each takes the display from the one before it: where
/// nothing waits and two outcomes arrive, the first tick shows the one that
/// arrived first and the second tick the other.
pub proof fn lemma_shown_in_arrival_order(
    app: ReqtAppView,
    earlier: TransportOutcome,
    later: TransportOutcome,
)
    requires
        app.pending.len() == 0,
    ensures
        after_poll(after_complete(after_complete(app, earlier), later)).response == Some(
            display_text(earlier@),
        ),
        after_poll(after_poll(after_complete(after_complete(app, earlier), later))) == (
        ReqtAppView { response: Some(display_text(later@)), ..app }),
{
    let arrived = after_complete(after_complete(app, earlier), later);
    assert(arrived.pending.len() == 2);
    let once = after_poll(arrived);
    assert(once.pending =~= seq![later]);
    assert(after_receive(once.pending) =~= app.pending);
}

/// An outcome that arrives between two ticks does not disturb what the first
/// tick showed: a tick, then an arrival, then a tick shows both in turn.
pub proof fn lemma_late_arrival_overwrites(
    app: ReqtAppView,
    fast: TransportOutcome,
    slow: TransportOutcome,
)
    requires
        app.pending.len() == 0,
    ensures
        after_poll(after_complete(app, fast)).response == Some(display_text(fast@)),
        after_poll(after_complete(after_poll(after_complete(app, fast)), slow)) == (ReqtAppView {
            response: Some(display_text(slow@)),
            ..app
        }),
{
    lemma_one_outcome_one_hit(app, fast);
    let shown = after_poll(after_complete(app, fast));
    lemma_one_outcome_one_hit(shown, slow);
}

} // verus!
