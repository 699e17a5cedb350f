//! The record of what the user has selected, kept across sessions.

use vstd::prelude::*;

verus! {

/// What the user has selected: an environment, and possibly a request.
#[derive(Debug, Clone, PartialEq, Eq)]
pub struct ReqtAppState {
    current_env: String,
    current_req: Option<String>,
}

/// The mathematical value of a [`ReqtAppState`].
pub ghost struct ReqtAppStateView {
    pub current_env: Seq<char>,
    pub current_req: Option<Seq<char>>,
}

/// The view of an optional string: the view of the string, where there is one.
pub open spec fn opt_text(s: Option<String>) -> Option<Seq<char>> {
    match s {
        Some(t) => Some(t@),
        None => None,
    }
}

impl View for ReqtAppState {
    type V = ReqtAppStateView;

    closed spec fn view(&self) -> ReqtAppStateView {
        ReqtAppStateView {
            current_env: self.current_env@,
            current_req: opt_text(self.current_req),
        }
    }
}

/// The state of a fresh installation: the environment named "default", and no request.
pub open spec fn default_state() -> ReqtAppStateView {
    ReqtAppStateView { current_env: "default"@, current_req: None }
}

impl Default for ReqtAppState {
    fn default() -> (r: Self)
        ensures
            r@ == default_state(),
    {
        ReqtAppState { current_env: "default".to_owned(), current_req: None }
    }
}

impl ReqtAppState {
    /// A state with the given selection.
    pub fn with_selection(current_env: String, current_req: Option<String>) -> (r: Self)
        ensures
            r@.current_env == current_env@,
            r@.current_req == opt_text(current_req),
    {
        ReqtAppState { current_env, current_req }
    }

    /// The name of the selected environment.
    pub fn current_env(&self) -> (r: &str)
        ensures
            r@ == self@.current_env,
    {
        self.current_env.as_str()
    }

    /// The selected request, if any.
    pub fn current_req(&self) -> (r: Option<&str>)
        ensures
            r is Some == self@.current_req is Some,
            r matches Some(t) ==> Some(t@) == self@.current_req,
    {
        match &self.current_req {
            Some(t) => Some(t.as_str()),
            None => None,
        }
    }
}

} // verus!
