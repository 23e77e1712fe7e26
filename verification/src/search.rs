//! The neighborhood search, as a machine of decisions.
//!
//! The accessibility tree is a foreign, possibly slow object graph; the
//! platform glue holds its handles and performs one request at a time. Each
//! [`Phase`] names the pending request; [`step`] consumes the request's
//! outcome and either names the next request or finishes the search. The
//! traversal order is fixed: the focused element, its next sibling, its
//! previous sibling, a descendant scan capped at
//! [`MAX_DESCENDANTS_TO_CHECK`] nodes, then an ancestor walk capped at
//! [`MAX_PARENTS_TO_CHECK`] hops; the first acceptable probe result wins.
//! Only the focused element may answer with an empty selection; everywhere
//! else empty counts as a miss. Failures inside the steps are recovered
//! locally; only the four acquisitions abort the search.

use vstd::prelude::*;
use vstd::string::StringExecFns;
use crate::error::{ErrorView, GetTextError};

verus! {

/// Most descendants of the focused element ever examined in one search.
pub const MAX_DESCENDANTS_TO_CHECK: usize = 50;

/// Most parent navigations ever performed in one search.
pub const MAX_PARENTS_TO_CHECK: usize = 50;

/// Where the search stands: each phase names the request whose outcome the
/// machine waits for.
#[derive(Clone, Copy, Debug, PartialEq, Eq, Structural)]
pub enum Phase {
    /// Acquire the root automation object.
    AcquireRoot,
    /// Build the match-everything filter.
    AcquireCondition,
    /// Build the tree-walker bound to the filter.
    AcquireWalker,
    /// Obtain the focused element.
    AcquireFocused,
    /// Probe the focused element itself.
    ProbeFocused,
    /// Navigate to the focused element's next sibling and probe it.
    ProbeNextSibling,
    /// Navigate to the focused element's previous sibling and probe it.
    ProbePrevSibling,
    /// Enumerate the focused element's descendants.
    FindDescendants,
    /// Fetch and probe descendant `index` of the `count` enumerated.
    ProbeDescendant { index: usize, count: usize },
    /// Navigate to the parent of the current chain element — `hops` parents
    /// have been reached so far — and probe it.
    ProbeParent { hops: usize },
}

/// The outcome of one request, as the platform glue reports it.
#[derive(Clone, Debug)]
pub enum Event {
    /// The pending acquisition succeeded.
    Acquired,
    /// The pending acquisition failed, with the underlying cause.
    AcquireFailed(String),
    /// The probe of the focused element: its selection text, if the
    /// capability answered at all.
    FocusedText(Option<String>),
    /// A candidate elsewhere: `None` when reaching the node failed,
    /// otherwise the probe of the reached node.
    CandidateText(Option<Option<String>>),
    /// The descendant enumeration: how many nodes it yielded, `None` when
    /// enumerating or counting them failed.
    DescendantCount(Option<usize>),
}

/// What the machine does with one event.
#[derive(Debug)]
pub enum Transition {
    /// The search continues; the new phase names the next request.
    Next(Phase),
    /// The search is over, with the query's outcome.
    Finished(Result<String, GetTextError>),
}

/// Spec-level image of a [`Transition`].
pub enum TransitionView {
    Continue(Phase),
    Success(Seq<char>),
    Failure(ErrorView),
}

pub open spec fn transition_view(t: Transition) -> TransitionView {
    match t {
        Transition::Next(p) => TransitionView::Continue(p),
        Transition::Finished(r) => match r {
            Ok(s) => TransitionView::Success(s@),
            Err(e) => TransitionView::Failure(e@),
        },
    }
}

/// Which events can answer which phase.
pub open spec fn event_fits(phase: Phase, event: Event) -> bool {
    match phase {
        Phase::AcquireRoot
        | Phase::AcquireCondition
        | Phase::AcquireWalker
        | Phase::AcquireFocused => event is Acquired || event is AcquireFailed,
        Phase::ProbeFocused => event is FocusedText,
        Phase::ProbeNextSibling | Phase::ProbePrevSibling => event is CandidateText,
        Phase::FindDescendants => event is DescendantCount,
        Phase::ProbeDescendant { .. } => event is CandidateText,
        Phase::ProbeParent { .. } => event is CandidateText,
    }
}

/// The phases the machine can actually reach: the scan and the walk stay
/// under their caps.
pub open spec fn phase_wf(phase: Phase) -> bool {
    match phase {
        Phase::ProbeDescendant { index, count } => index < count && index
            < MAX_DESCENDANTS_TO_CHECK,
        Phase::ProbeParent { hops } => hops < MAX_PARENTS_TO_CHECK,
        _ => true,
    }
}

/// The cause reported when building the match-everything filter fails.
pub open spec fn condition_failure_message(cause: Seq<char>) -> Seq<char> {
    "Failed to create condition: "@ + cause
}

/// The cause reported when building the tree-walker fails.
pub open spec fn walker_failure_message(cause: Seq<char>) -> Seq<char> {
    "Failed to create tree walker: "@ + cause
}

/// The cause reported when obtaining the focused element fails.
pub open spec fn focused_failure_message(cause: Seq<char>) -> Seq<char> {
    "Failed to get focused element: "@ + cause
}

/// Where the descendant scan goes after a miss at `index`: the next
/// descendant while both the enumeration and the cap allow it, else the
/// ancestor walk.
pub open spec fn descendant_advance(index: usize, count: usize) -> TransitionView {
    if index + 1 < count && index + 1 < MAX_DESCENDANTS_TO_CHECK {
        TransitionView::Continue(Phase::ProbeDescendant { index: (index + 1) as usize, count })
    } else {
        TransitionView::Continue(Phase::ProbeParent { hops: 0 })
    }
}

/// Where the ancestor walk goes after a miss at hop `hops`: one hop further
/// while the cap allows it, else the search ends empty-handed.
pub open spec fn parent_advance(hops: usize) -> TransitionView {
    if hops + 1 < MAX_PARENTS_TO_CHECK {
        TransitionView::Continue(Phase::ProbeParent { hops: (hops + 1) as usize })
    } else {
        TransitionView::Success(Seq::empty())
    }
}

/// The machine's whole decision table: what [`step`] returns, phase by
/// phase and event by event.
pub open spec fn step_spec(phase: Phase, event: Event) -> TransitionView {
    match phase {
        Phase::AcquireRoot => match event {
            Event::AcquireFailed(cause) => TransitionView::Failure(ErrorView::Automation(cause@)),
            _ => TransitionView::Continue(Phase::AcquireCondition),
        },
        Phase::AcquireCondition => match event {
            Event::AcquireFailed(cause) => TransitionView::Failure(
                ErrorView::Automation(condition_failure_message(cause@)),
            ),
            _ => TransitionView::Continue(Phase::AcquireWalker),
        },
        Phase::AcquireWalker => match event {
            Event::AcquireFailed(cause) => TransitionView::Failure(
                ErrorView::Automation(walker_failure_message(cause@)),
            ),
            _ => TransitionView::Continue(Phase::AcquireFocused),
        },
        Phase::AcquireFocused => match event {
            Event::AcquireFailed(cause) => TransitionView::Failure(
                ErrorView::Automation(focused_failure_message(cause@)),
            ),
            _ => TransitionView::Continue(Phase::ProbeFocused),
        },
        Phase::ProbeFocused => match event {
            Event::FocusedText(Some(text)) => TransitionView::Success(text@),
            _ => TransitionView::Continue(Phase::ProbeNextSibling),
        },
        Phase::ProbeNextSibling => match event {
            Event::CandidateText(Some(Some(text))) => if text@.len() > 0 {
                TransitionView::Success(text@)
            } else {
                TransitionView::Continue(Phase::ProbePrevSibling)
            },
            _ => TransitionView::Continue(Phase::ProbePrevSibling),
        },
        Phase::ProbePrevSibling => match event {
            Event::CandidateText(Some(Some(text))) => if text@.len() > 0 {
                TransitionView::Success(text@)
            } else {
                TransitionView::Continue(Phase::FindDescendants)
            },
            _ => TransitionView::Continue(Phase::FindDescendants),
        },
        Phase::FindDescendants => match event {
            Event::DescendantCount(Some(count)) => if count > 0 {
                TransitionView::Continue(Phase::ProbeDescendant { index: 0, count })
            } else {
                TransitionView::Continue(Phase::ProbeParent { hops: 0 })
            },
            _ => TransitionView::Continue(Phase::ProbeParent { hops: 0 }),
        },
        Phase::ProbeDescendant { index, count } => match event {
            Event::CandidateText(Some(Some(text))) => if text@.len() > 0 {
                TransitionView::Success(text@)
            } else {
                descendant_advance(index, count)
            },
            _ => descendant_advance(index, count),
        },
        Phase::ProbeParent { hops } => match event {
            Event::CandidateText(None) => TransitionView::Success(Seq::empty()),
            Event::CandidateText(Some(Some(text))) => if text@.len() > 0 {
                TransitionView::Success(text@)
            } else {
                parent_advance(hops)
            },
            _ => parent_advance(hops),
        },
    }
}

/// Feed the machine the outcome of the pending request.
pub fn step(phase: Phase, event: Event) -> (t: Transition)
    requires
        phase_wf(phase),
        event_fits(phase, event),
    ensures
        transition_view(t) == step_spec(phase, event),
{
    match phase {
        Phase::AcquireRoot => match event {
            Event::AcquireFailed(cause) => Transition::Finished(
                Err(GetTextError::AutomationFailure(cause)),
            ),
            _ => Transition::Next(Phase::AcquireCondition),
        },
        Phase::AcquireCondition => match event {
            Event::AcquireFailed(cause) => {
                let mut m: String = "Failed to create condition: ".to_owned();
                m.append(cause.as_str());
                Transition::Finished(Err(GetTextError::AutomationFailure(m)))
            },
            _ => Transition::Next(Phase::AcquireWalker),
        },
        Phase::AcquireWalker => match event {
            Event::AcquireFailed(cause) => {
                let mut m: String = "Failed to create tree walker: ".to_owned();
                m.append(cause.as_str());
                Transition::Finished(Err(GetTextError::AutomationFailure(m)))
            },
            _ => Transition::Next(Phase::AcquireFocused),
        },
        Phase::AcquireFocused => match event {
            Event::AcquireFailed(cause) => {
                let mut m: String = "Failed to get focused element: ".to_owned();
                m.append(cause.as_str());
                Transition::Finished(Err(GetTextError::AutomationFailure(m)))
            },
            _ => Transition::Next(Phase::ProbeFocused),
        },
        Phase::ProbeFocused => match event {
            Event::FocusedText(Some(text)) => Transition::Finished(Ok(text)),
            _ => Transition::Next(Phase::ProbeNextSibling),
        },
        Phase::ProbeNextSibling => match event {
            Event::CandidateText(Some(Some(text))) => {
                if !text.as_str().is_empty() {
                    Transition::Finished(Ok(text))
                } else {
                    Transition::Next(Phase::ProbePrevSibling)
                }
            },
            _ => Transition::Next(Phase::ProbePrevSibling),
        },
        Phase::ProbePrevSibling => match event {
            Event::CandidateText(Some(Some(text))) => {
                if !text.as_str().is_empty() {
                    Transition::Finished(Ok(text))
                } else {
                    Transition::Next(Phase::FindDescendants)
                }
            },
            _ => Transition::Next(Phase::FindDescendants),
        },
        Phase::FindDescendants => match event {
            Event::DescendantCount(Some(count)) => {
                if count > 0 {
                    Transition::Next(Phase::ProbeDescendant { index: 0, count })
                } else {
                    Transition::Next(Phase::ProbeParent { hops: 0 })
                }
            },
            _ => Transition::Next(Phase::ProbeParent { hops: 0 }),
        },
        Phase::ProbeDescendant { index, count } => match event {
            Event::CandidateText(Some(Some(text))) => {
                if !text.as_str().is_empty() {
                    Transition::Finished(Ok(text))
                } else {
                    if index + 1 < count && index + 1 < MAX_DESCENDANTS_TO_CHECK {
                        Transition::Next(Phase::ProbeDescendant { index: index + 1, count })
                    } else {
                        Transition::Next(Phase::ProbeParent { hops: 0 })
                    }
                }
            },
            _ => {
                if index + 1 < count && index + 1 < MAX_DESCENDANTS_TO_CHECK {
                    Transition::Next(Phase::ProbeDescendant { index: index + 1, count })
                } else {
                    Transition::Next(Phase::ProbeParent { hops: 0 })
                }
            },
        },
        Phase::ProbeParent { hops } => match event {
            Event::CandidateText(None) => Transition::Finished(Ok(String::new())),
            Event::CandidateText(Some(Some(text))) => {
                if !text.as_str().is_empty() {
                    Transition::Finished(Ok(text))
                } else {
                    if hops + 1 < MAX_PARENTS_TO_CHECK {
                        Transition::Next(Phase::ProbeParent { hops: hops + 1 })
                    } else {
                        Transition::Finished(Ok(String::new()))
                    }
                }
            },
            _ => {
                if hops + 1 < MAX_PARENTS_TO_CHECK {
                    Transition::Next(Phase::ProbeParent { hops: hops + 1 })
                } else {
                    Transition::Finished(Ok(String::new()))
                }
            },
        },
    }
}

/// Law: the focused element short-circuits the whole search whenever its
/// probe answers at all — even with an empty selection. The machine finishes
/// with exactly that text; no sibling, descendant or ancestor request is
/// ever issued.
pub proof fn lemma_focused_short_circuit(text: String)
    ensures
        step_spec(Phase::ProbeFocused, Event::FocusedText(Some(text))) == TransitionView::Success(
            text@,
        ),
{
}

/// Law: everywhere after the focused element, a candidate whose probe
/// yields an empty string is a miss. The machine treats it exactly as a
/// candidate whose probe found nothing at all: it is never accepted, and
/// the search carries on just as it would have — to the next candidate, or
/// to exhaustion where none is left.
pub proof fn lemma_empty_is_a_miss_elsewhere(phase: Phase, text: String)
    requires
        phase_wf(phase),
        phase is ProbeNextSibling || phase is ProbePrevSibling || phase is ProbeDescendant
            || phase is ProbeParent,
        text@.len() == 0,
    ensures
        step_spec(phase, Event::CandidateText(Some(Some(text)))) == step_spec(
            phase,
            Event::CandidateText(Some(None)),
        ),
{
}

/// Law: the caps hold along every run. From a well-formed phase, every
/// continuation is well-formed, so the machine never asks for a descendant
/// at an index at or beyond [`MAX_DESCENDANTS_TO_CHECK`] and never asks for
/// a parent hop at or beyond [`MAX_PARENTS_TO_CHECK`], however many nodes
/// the tree holds.
pub proof fn lemma_caps_preserved(phase: Phase, event: Event)
    requires
        phase_wf(phase),
        event_fits(phase, event),
    ensures
        step_spec(phase, event) matches TransitionView::Continue(next) ==> phase_wf(next),
{
}

} // verus!
