//! A whole query against a known neighborhood.
//!
//! The platform glue drives [`crate::search::step`] against the live tree;
//! here the same machine is driven against an [`Environment`] given as
//! plain data — the focused element, its siblings, its descendants and its
//! ancestor chain, together with how the four acquisitions fare. What the
//! machine computes over any such environment is pinned down by
//! [`search_spec`]: the verified runner [`internal_get_text`] returns
//! exactly that, so every decision of the search — order, caps, what counts
//! as a hit, what aborts — is proved once and for all environments.

use vstd::prelude::*;
use vstd::pervasive::unreached;
use crate::element::{Element, get_text_from_element, non_empty_probe_spec, probe_spec};
use crate::error::{ErrorView, GetTextError};
use crate::search::{
    Event,
    MAX_DESCENDANTS_TO_CHECK,
    MAX_PARENTS_TO_CHECK,
    Phase,
    Transition,
    condition_failure_message,
    focused_failure_message,
    step,
    walker_failure_message,
};

verus! {

/// The neighborhood of the focused element, as the search can reach it.
#[derive(Clone, Debug)]
pub struct Neighborhood {
    /// The element holding input focus.
    pub focused: Element,
    /// Its next sibling; `None` when navigating there fails.
    pub next_sibling: Option<Element>,
    /// Its previous sibling; `None` when navigating there fails.
    pub previous_sibling: Option<Element>,
    /// Its descendants in enumeration order; `None` when enumerating them
    /// fails, and `None` entries where fetching a single one fails.
    pub descendants: Option<Vec<Option<Element>>>,
    /// Its ancestors, nearest first; the walk ends where the chain does.
    pub ancestors: Vec<Element>,
}

/// Everything one query can observe: how the four acquisitions fare, and
/// the neighborhood behind them.
#[derive(Clone, Debug)]
pub struct Environment {
    /// The cause, when acquiring the root automation object fails.
    pub root_failure: Option<String>,
    /// The cause, when building the match-everything filter fails.
    pub condition_failure: Option<String>,
    /// The cause, when building the tree-walker fails.
    pub walker_failure: Option<String>,
    /// The cause, when obtaining the focused element fails.
    pub focused_failure: Option<String>,
    /// The neighborhood of the focused element.
    pub neighborhood: Neighborhood,
}

/// What a sibling position contributes: non-empty text of a reachable node.
pub open spec fn sibling_hit(sibling: Option<Element>) -> Option<Seq<char>> {
    match sibling {
        None => None,
        Some(el) => non_empty_probe_spec(el),
    }
}

/// The first non-empty probe among `descendants[i..]`, looking no further
/// than index `cap`; entries that failed to fetch are skipped.
pub open spec fn first_descendant_hit(
    descendants: Seq<Option<Element>>,
    i: int,
    cap: int,
) -> Option<Seq<char>>
    decreases cap - i,
{
    if i < 0 || i >= descendants.len() || i >= cap {
        None
    } else {
        match descendants[i] {
            None => first_descendant_hit(descendants, i + 1, cap),
            Some(el) => match non_empty_probe_spec(el) {
                Some(text) => Some(text),
                None => first_descendant_hit(descendants, i + 1, cap),
            },
        }
    }
}

/// The first non-empty probe among `ancestors[i..]`, looking no further
/// than hop `cap`.
pub open spec fn first_ancestor_hit(ancestors: Seq<Element>, i: int, cap: int) -> Option<Seq<char>>
    decreases cap - i,
{
    if i < 0 || i >= ancestors.len() || i >= cap {
        None
    } else {
        match non_empty_probe_spec(ancestors[i]) {
            Some(text) => Some(text),
            None => first_ancestor_hit(ancestors, i + 1, cap),
        }
    }
}

/// What the capped descendant scan finds.
pub open spec fn descendant_hit(n: Neighborhood) -> Option<Seq<char>> {
    match n.descendants {
        None => None,
        Some(list) => first_descendant_hit(list@, 0, MAX_DESCENDANTS_TO_CHECK as int),
    }
}

/// What the capped ancestor walk finds.
pub open spec fn ancestor_hit(n: Neighborhood) -> Option<Seq<char>> {
    first_ancestor_hit(n.ancestors@, 0, MAX_PARENTS_TO_CHECK as int)
}

/// The text the search settles on: the focused element's own selection when
/// it answers at all — even empty — else the first non-empty text among
/// next sibling, previous sibling, capped descendant scan and capped
/// ancestor walk, in that order; the empty string when the whole
/// neighborhood yields nothing.
pub open spec fn neighborhood_spec(n: Neighborhood) -> Seq<char> {
    match probe_spec(n.focused) {
        Some(text) => text,
        None => match sibling_hit(n.next_sibling) {
            Some(text) => text,
            None => match sibling_hit(n.previous_sibling) {
                Some(text) => text,
                None => match descendant_hit(n) {
                    Some(text) => text,
                    None => match ancestor_hit(n) {
                        Some(text) => text,
                        None => Seq::empty(),
                    },
                },
            },
        },
    }
}

/// The outcome of a whole query: the first failing acquisition aborts it,
/// with the cause the search reports for that stage; otherwise the search
/// runs and succeeds with [`neighborhood_spec`].
pub open spec fn search_spec(env: Environment) -> Result<Seq<char>, ErrorView> {
    match env.root_failure {
        Some(cause) => Err(ErrorView::Automation(cause@)),
        None => match env.condition_failure {
            Some(cause) => Err(ErrorView::Automation(condition_failure_message(cause@))),
            None => match env.walker_failure {
                Some(cause) => Err(ErrorView::Automation(walker_failure_message(cause@))),
                None => match env.focused_failure {
                    Some(cause) => Err(ErrorView::Automation(focused_failure_message(cause@))),
                    None => Ok(neighborhood_spec(env.neighborhood)),
                },
            },
        },
    }
}

/// Spec-level image of a query's outcome.
pub open spec fn result_view(r: Result<String, GetTextError>) -> Result<Seq<char>, ErrorView> {
    match r {
        Ok(text) => Ok(text@),
        Err(e) => Err(e@),
    }
}

/// All four acquisitions succeed.
pub open spec fn acquires_ok(env: Environment) -> bool {
    &&& env.root_failure is None
    &&& env.condition_failure is None
    &&& env.walker_failure is None
    &&& env.focused_failure is None
}

/// Everything before the descendant scan has missed.
pub open spec fn early_steps_missed(env: Environment) -> bool {
    &&& acquires_ok(env)
    &&& probe_spec(env.neighborhood.focused) is None
    &&& sibling_hit(env.neighborhood.next_sibling) is None
    &&& sibling_hit(env.neighborhood.previous_sibling) is None
}

/// What holds of the runner whenever it stands at `phase`: every earlier
/// candidate has missed, and the scan and walk positions agree with the
/// environment.
pub open spec fn runner_inv(env: Environment, phase: Phase) -> bool {
    match phase {
        Phase::AcquireRoot => true,
        Phase::AcquireCondition => env.root_failure is None,
        Phase::AcquireWalker => env.root_failure is None && env.condition_failure is None,
        Phase::AcquireFocused => env.root_failure is None && env.condition_failure is None
            && env.walker_failure is None,
        Phase::ProbeFocused => acquires_ok(env),
        Phase::ProbeNextSibling => acquires_ok(env) && probe_spec(env.neighborhood.focused)
            is None,
        Phase::ProbePrevSibling => acquires_ok(env) && probe_spec(env.neighborhood.focused)
            is None && sibling_hit(env.neighborhood.next_sibling) is None,
        Phase::FindDescendants => early_steps_missed(env),
        Phase::ProbeDescendant { index, count } => {
            &&& early_steps_missed(env)
            &&& env.neighborhood.descendants matches Some(list)
            &&& count == list@.len()
            &&& first_descendant_hit(list@, 0, MAX_DESCENDANTS_TO_CHECK as int)
                == first_descendant_hit(list@, index as int, MAX_DESCENDANTS_TO_CHECK as int)
        },
        Phase::ProbeParent { hops } => {
            &&& early_steps_missed(env)
            &&& descendant_hit(env.neighborhood) is None
            &&& first_ancestor_hit(env.neighborhood.ancestors@, 0, MAX_PARENTS_TO_CHECK as int)
                == first_ancestor_hit(
                env.neighborhood.ancestors@,
                hops as int,
                MAX_PARENTS_TO_CHECK as int,
            )
        },
    }
}

/// How far the runner still has to go from `phase`.
pub open spec fn phase_measure(phase: Phase) -> int {
    match phase {
        Phase::AcquireRoot => 200,
        Phase::AcquireCondition => 199,
        Phase::AcquireWalker => 198,
        Phase::AcquireFocused => 197,
        Phase::ProbeFocused => 196,
        Phase::ProbeNextSibling => 195,
        Phase::ProbePrevSibling => 194,
        Phase::FindDescendants => 193,
        Phase::ProbeDescendant { index, .. } => 190 - index,
        Phase::ProbeParent { hops } => 60 - hops,
    }
}

/// Run one whole query against a known environment: acquisitions first,
/// then the machine over the neighborhood, exactly as the platform glue
/// would drive it against the live tree.
pub fn internal_get_text(env: &Environment) -> (r: Result<String, GetTextError>)
    ensures
        result_view(r) == search_spec(*env),
{
    let mut phase = Phase::AcquireRoot;
    loop
        invariant
            crate::search::phase_wf(phase),
            runner_inv(*env, phase),
        decreases phase_measure(phase),
    {
        match phase {
            Phase::AcquireRoot => {
                let event = match &env.root_failure {
                    None => Event::Acquired,
                    Some(cause) => Event::AcquireFailed(cause.clone()),
                };
                match step(phase, event) {
                    Transition::Next(p) => {
                        phase = p;
                    },
                    Transition::Finished(r) => {
                        return r;
                    },
                }
            },
            Phase::AcquireCondition => {
                let event = match &env.condition_failure {
                    None => Event::Acquired,
                    Some(cause) => Event::AcquireFailed(cause.clone()),
                };
                match step(phase, event) {
                    Transition::Next(p) => {
                        phase = p;
                    },
                    Transition::Finished(r) => {
                        return r;
                    },
                }
            },
            Phase::AcquireWalker => {
                let event = match &env.walker_failure {
                    None => Event::Acquired,
                    Some(cause) => Event::AcquireFailed(cause.clone()),
                };
                match step(phase, event) {
                    Transition::Next(p) => {
                        phase = p;
                    },
                    Transition::Finished(r) => {
                        return r;
                    },
                }
            },
            Phase::AcquireFocused => {
                let event = match &env.focused_failure {
                    None => Event::Acquired,
                    Some(cause) => Event::AcquireFailed(cause.clone()),
                };
                match step(phase, event) {
                    Transition::Next(p) => {
                        phase = p;
                    },
                    Transition::Finished(r) => {
                        return r;
                    },
                }
            },
            Phase::ProbeFocused => {
                let event = Event::FocusedText(get_text_from_element(&env.neighborhood.focused));
                match step(phase, event) {
                    Transition::Next(p) => {
                        phase = p;
                    },
                    Transition::Finished(r) => {
                        return r;
                    },
                }
            },
            Phase::ProbeNextSibling => {
                let event = match &env.neighborhood.next_sibling {
                    None => Event::CandidateText(None),
                    Some(el) => Event::CandidateText(Some(get_text_from_element(el))),
                };
                match step(phase, event) {
                    Transition::Next(p) => {
                        phase = p;
                    },
                    Transition::Finished(r) => {
                        return r;
                    },
                }
            },
            Phase::ProbePrevSibling => {
                let event = match &env.neighborhood.previous_sibling {
                    None => Event::CandidateText(None),
                    Some(el) => Event::CandidateText(Some(get_text_from_element(el))),
                };
                match step(phase, event) {
                    Transition::Next(p) => {
                        phase = p;
                    },
                    Transition::Finished(r) => {
                        return r;
                    },
                }
            },
            Phase::FindDescendants => {
                let event = match &env.neighborhood.descendants {
                    None => Event::DescendantCount(None),
                    Some(list) => Event::DescendantCount(Some(list.len())),
                };
                match step(phase, event) {
                    Transition::Next(p) => {
                        phase = p;
                    },
                    Transition::Finished(r) => {
                        return r;
                    },
                }
            },
            Phase::ProbeDescendant { index, count } => {
                let list = match &env.neighborhood.descendants {
                    Some(list) => list,
                    None => unreached(),
                };
                let event = match &list[index] {
                    None => Event::CandidateText(None),
                    Some(el) => Event::CandidateText(Some(get_text_from_element(el))),
                };
                proof {
                    let ds = list@;
                    let cap = MAX_DESCENDANTS_TO_CHECK as int;
                    match &event {
                        Event::CandidateText(None) => {
                            assert(first_descendant_hit(ds, index as int, cap)
                                == first_descendant_hit(ds, index as int + 1, cap));
                        },
                        Event::CandidateText(Some(None)) => {
                            assert(first_descendant_hit(ds, index as int, cap)
                                == first_descendant_hit(ds, index as int + 1, cap));
                        },
                        Event::CandidateText(Some(Some(text))) => {
                            if text@.len() == 0 {
                                assert(first_descendant_hit(ds, index as int, cap)
                                    == first_descendant_hit(ds, index as int + 1, cap));
                            } else {
                                assert(first_descendant_hit(ds, index as int, cap) == Some(
                                    text@,
                                ));
                            }
                        },
                        _ => {},
                    }
                    if index as int + 1 >= ds.len() || index as int + 1 >= cap {
                        assert(first_descendant_hit(ds, index as int + 1, cap) is None);
                    }
                }
                match step(phase, event) {
                    Transition::Next(p) => {
                        phase = p;
                    },
                    Transition::Finished(r) => {
                        return r;
                    },
                }
            },
            Phase::ProbeParent { hops } => {
                let event = if hops < env.neighborhood.ancestors.len() {
                    Event::CandidateText(
                        Some(get_text_from_element(&env.neighborhood.ancestors[hops])),
                    )
                } else {
                    Event::CandidateText(None)
                };
                proof {
                    let anc = env.neighborhood.ancestors@;
                    let cap = MAX_PARENTS_TO_CHECK as int;
                    if hops as int >= anc.len() {
                        assert(first_ancestor_hit(anc, hops as int, cap) is None);
                    } else {
                        match &event {
                            Event::CandidateText(Some(None)) => {
                                assert(first_ancestor_hit(anc, hops as int, cap)
                                    == first_ancestor_hit(anc, hops as int + 1, cap));
                            },
                            Event::CandidateText(Some(Some(text))) => {
                                if text@.len() == 0 {
                                    assert(first_ancestor_hit(anc, hops as int, cap)
                                        == first_ancestor_hit(anc, hops as int + 1, cap));
                                } else {
                                    assert(first_ancestor_hit(anc, hops as int, cap) == Some(
                                        text@,
                                    ));
                                }
                            },
                            _ => {},
                        }
                    }
                    if hops as int + 1 >= anc.len() || hops as int + 1 >= cap {
                        assert(first_ancestor_hit(anc, hops as int + 1, cap) is None);
                    }
                }
                match step(phase, event) {
                    Transition::Next(p) => {
                        phase = p;
                    },
                    Transition::Finished(r) => {
                        return r;
                    },
                }
            },
        }
    }
}

/// Two descendant enumerations look the same up to index `cap`: they agree
/// entry for entry as far as the cap reaches, and where one ends before the
/// cap, so does the other.
pub open spec fn agree_to_cap_descendants(
    d1: Seq<Option<Element>>,
    d2: Seq<Option<Element>>,
    cap: int,
) -> bool {
    &&& (if d1.len() < cap {
        d1.len() as int
    } else {
        cap
    }) == (if d2.len() < cap {
        d2.len() as int
    } else {
        cap
    })
    &&& forall|j: int| 0 <= j < cap && j < d1.len() ==> d1[j] == d2[j]
}

/// Two ancestor chains look the same up to hop `cap`.
pub open spec fn agree_to_cap_ancestors(a1: Seq<Element>, a2: Seq<Element>, cap: int) -> bool {
    &&& (if a1.len() < cap {
        a1.len() as int
    } else {
        cap
    }) == (if a2.len() < cap {
        a2.len() as int
    } else {
        cap
    })
    &&& forall|j: int| 0 <= j < cap && j < a1.len() ==> a1[j] == a2[j]
}

proof fn lemma_first_descendant_hit_agrees(
    d1: Seq<Option<Element>>,
    d2: Seq<Option<Element>>,
    i: int,
    cap: int,
)
    requires
        agree_to_cap_descendants(d1, d2, cap),
        0 <= i,
    ensures
        first_descendant_hit(d1, i, cap) == first_descendant_hit(d2, i, cap),
    decreases cap - i,
{
    if i < cap && i < d1.len() {
        assert(d1[i] == d2[i]);
        lemma_first_descendant_hit_agrees(d1, d2, i + 1, cap);
    }
}

proof fn lemma_first_ancestor_hit_agrees(a1: Seq<Element>, a2: Seq<Element>, i: int, cap: int)
    requires
        agree_to_cap_ancestors(a1, a2, cap),
        0 <= i,
    ensures
        first_ancestor_hit(a1, i, cap) == first_ancestor_hit(a2, i, cap),
    decreases cap - i,
{
    if i < cap && i < a1.len() {
        assert(a1[i] == a2[i]);
        lemma_first_ancestor_hit_agrees(a1, a2, i + 1, cap);
    }
}

/// Law: the scan and the walk are bounded. The descendant scan examines at
/// most [`MAX_DESCENDANTS_TO_CHECK`] nodes and the ancestor walk performs
/// at most [`MAX_PARENTS_TO_CHECK`] hops: two environments that look the
/// same up to those caps get the same outcome, however much more either
/// tree holds beyond them.
pub proof fn lemma_search_bounded_by_caps(a: Environment, b: Environment)
    requires
        a.root_failure == b.root_failure,
        a.condition_failure == b.condition_failure,
        a.walker_failure == b.walker_failure,
        a.focused_failure == b.focused_failure,
        a.neighborhood.focused == b.neighborhood.focused,
        a.neighborhood.next_sibling == b.neighborhood.next_sibling,
        a.neighborhood.previous_sibling == b.neighborhood.previous_sibling,
        match (a.neighborhood.descendants, b.neighborhood.descendants) {
            (None, None) => true,
            (Some(d1), Some(d2)) => agree_to_cap_descendants(
                d1@,
                d2@,
                MAX_DESCENDANTS_TO_CHECK as int,
            ),
            _ => false,
        },
        agree_to_cap_ancestors(
            a.neighborhood.ancestors@,
            b.neighborhood.ancestors@,
            MAX_PARENTS_TO_CHECK as int,
        ),
    ensures
        search_spec(a) == search_spec(b),
{
    match (a.neighborhood.descendants, b.neighborhood.descendants) {
        (Some(d1), Some(d2)) => lemma_first_descendant_hit_agrees(
            d1@,
            d2@,
            0,
            MAX_DESCENDANTS_TO_CHECK as int,
        ),
        _ => {},
    }
    lemma_first_ancestor_hit_agrees(
        a.neighborhood.ancestors@,
        b.neighborhood.ancestors@,
        0,
        MAX_PARENTS_TO_CHECK as int,
    );
}

/// Law: the focused element is authoritative. When the four acquisitions
/// succeed and its probe answers — even with the empty string — the query
/// returns exactly that text, whatever the rest of the neighborhood holds.
pub proof fn lemma_focused_text_is_final(env: Environment, text: Seq<char>)
    requires
        acquires_ok(env),
        probe_spec(env.neighborhood.focused) == Some(text),
    ensures
        search_spec(env) == Ok::<Seq<char>, ErrorView>(text),
{
}

/// Law: when every step exhausts — the focused element's probe does not
/// answer, both siblings miss, and neither the capped descendant scan nor
/// the capped ancestor walk finds non-empty text — the query returns the
/// empty string, and no failure.
pub proof fn lemma_exhaustion_yields_empty(env: Environment)
    requires
        acquires_ok(env),
        probe_spec(env.neighborhood.focused) is None,
        sibling_hit(env.neighborhood.next_sibling) is None,
        sibling_hit(env.neighborhood.previous_sibling) is None,
        descendant_hit(env.neighborhood) is None,
        ancestor_hit(env.neighborhood) is None,
    ensures
        search_spec(env) == Ok::<Seq<char>, ErrorView>(Seq::<char>::empty()),
{
}

} // verus!
