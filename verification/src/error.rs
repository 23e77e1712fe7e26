//! The failures a query can surface.
//!
//! Everything that goes wrong inside the search steps themselves (a sibling
//! missing, a probe failing) is recovered locally and never reaches the
//! caller; only the kinds below abort a call.

use vstd::prelude::*;
use vstd::string::StringExecFns;

verus! {

/// A failure surfaced to the caller of a query.
#[derive(Debug, Clone)]
pub enum GetTextError {
    /// The one-time environment setup failed.
    InitializationFailure,
    /// Acquiring the automation root, the match-everything filter, the
    /// tree-walker, or the focused element failed; carries the cause.
    AutomationFailure(String),
    /// The worker delivered nothing before its channel closed.
    ChannelFailure,
    /// The worker did not answer within the caller's bound.
    Timeout,
}

/// Spec-level image of a [`GetTextError`].
pub enum ErrorView {
    Initialization,
    Automation(Seq<char>),
    Channel,
    TimedOut,
}

impl View for GetTextError {
    type V = ErrorView;

    open spec fn view(&self) -> ErrorView {
        match self {
            GetTextError::InitializationFailure => ErrorView::Initialization,
            GetTextError::AutomationFailure(cause) => ErrorView::Automation(cause@),
            GetTextError::ChannelFailure => ErrorView::Channel,
            GetTextError::Timeout => ErrorView::TimedOut,
        }
    }
}

/// The description [`GetTextError::message`] produces for each failure.
pub open spec fn message_spec(e: ErrorView) -> Seq<char> {
    match e {
        ErrorView::Initialization => "COM initialization failed"@,
        ErrorView::Automation(cause) => "UI Automation error: "@ + cause,
        ErrorView::Channel => "Channel send error"@,
        ErrorView::TimedOut => "Timeout while getting text"@,
    }
}

impl GetTextError {
    /// A human-readable description of the failure, carrying the underlying
    /// cause where there is one.
    pub fn message(&self) -> (m: String)
        ensures
            m@ == message_spec(self@),
    {
        match self {
            GetTextError::InitializationFailure => "COM initialization failed".to_owned(),
            GetTextError::AutomationFailure(cause) => {
                let mut m: String = "UI Automation error: ".to_owned();
                m.append(cause.as_str());
                m
            },
            GetTextError::ChannelFailure => "Channel send error".to_owned(),
            GetTextError::Timeout => "Timeout while getting text".to_owned(),
        }
    }
}

} // verus!
