use selected_text::element::{Element, Selection};
use selected_text::environment::{internal_get_text, Environment, Neighborhood};
use selected_text::error::GetTextError;

fn selecting(text: &str) -> Element {
    Element { selection: Selection::Ranges(vec![Some(text.to_string())]) }
}

fn plain() -> Element {
    Element { selection: Selection::NoPattern }
}

fn quiet_neighborhood() -> Neighborhood {
    Neighborhood {
        focused: plain(),
        next_sibling: None,
        previous_sibling: None,
        descendants: Some(Vec::new()),
        ancestors: Vec::new(),
    }
}

fn working(neighborhood: Neighborhood) -> Environment {
    Environment {
        root_failure: None,
        condition_failure: None,
        walker_failure: None,
        focused_failure: None,
        neighborhood,
    }
}

#[test]
fn focused_selection_is_the_answer() {
    let env = working(Neighborhood { focused: selecting("Hello"), ..quiet_neighborhood() });
    assert_eq!(internal_get_text(&env).unwrap(), "Hello");
}

#[test]
fn focused_empty_selection_beats_everything_behind_it() {
    let env = working(Neighborhood {
        focused: selecting(""),
        next_sibling: Some(selecting("Sibling")),
        previous_sibling: Some(selecting("Other")),
        ..quiet_neighborhood()
    });
    assert_eq!(internal_get_text(&env).unwrap(), "");
}

#[test]
fn next_sibling_answers_when_focused_cannot() {
    let env = working(Neighborhood {
        next_sibling: Some(selecting("Sibling")),
        ..quiet_neighborhood()
    });
    assert_eq!(internal_get_text(&env).unwrap(), "Sibling");
}

#[test]
fn previous_sibling_comes_after_next() {
    let env = working(Neighborhood {
        next_sibling: Some(selecting("")),
        previous_sibling: Some(selecting("Previous")),
        ..quiet_neighborhood()
    });
    assert_eq!(internal_get_text(&env).unwrap(), "Previous");
}

#[test]
fn third_descendant_answers_when_nearer_candidates_miss() {
    let env = working(Neighborhood {
        next_sibling: Some(plain()),
        previous_sibling: Some(selecting("")),
        descendants: Some(vec![
            Some(plain()),
            Some(selecting("")),
            Some(selecting("Deep")),
            Some(selecting("Deeper")),
        ]),
        ..quiet_neighborhood()
    });
    assert_eq!(internal_get_text(&env).unwrap(), "Deep");
}

#[test]
fn unfetchable_descendants_are_skipped() {
    let env = working(Neighborhood {
        descendants: Some(vec![None, None, Some(selecting("Reached"))]),
        ..quiet_neighborhood()
    });
    assert_eq!(internal_get_text(&env).unwrap(), "Reached");
}

#[test]
fn ancestor_is_the_last_resort() {
    let mut ancestors = vec![plain(), selecting("")];
    ancestors.push(selecting("Up"));
    let env = working(Neighborhood { ancestors, ..quiet_neighborhood() });
    assert_eq!(internal_get_text(&env).unwrap(), "Up");
}

#[test]
fn empty_neighborhood_is_a_success_with_empty_text() {
    let env = working(quiet_neighborhood());
    assert_eq!(internal_get_text(&env).unwrap(), "");
}

#[test]
fn failed_enumeration_still_reaches_ancestors() {
    let mut n = quiet_neighborhood();
    n.descendants = None;
    n.ancestors = vec![selecting("Above")];
    let env = working(n);
    assert_eq!(internal_get_text(&env).unwrap(), "Above");
}

#[test]
fn fiftieth_descendant_is_still_examined() {
    let mut descendants: Vec<Option<Element>> = Vec::new();
    for _ in 0..49 {
        descendants.push(Some(plain()));
    }
    descendants.push(Some(selecting("Edge")));
    let env = working(Neighborhood {
        descendants: Some(descendants),
        ..quiet_neighborhood()
    });
    assert_eq!(internal_get_text(&env).unwrap(), "Edge");
}

#[test]
fn fifty_first_descendant_is_beyond_the_cap() {
    let mut descendants: Vec<Option<Element>> = Vec::new();
    for _ in 0..50 {
        descendants.push(Some(plain()));
    }
    descendants.push(Some(selecting("Too far")));
    let env = working(Neighborhood {
        descendants: Some(descendants),
        ..quiet_neighborhood()
    });
    assert_eq!(internal_get_text(&env).unwrap(), "");
}

#[test]
fn fiftieth_ancestor_is_still_examined() {
    let mut ancestors: Vec<Element> = Vec::new();
    for _ in 0..49 {
        ancestors.push(plain());
    }
    ancestors.push(selecting("High"));
    let env = working(Neighborhood { ancestors, ..quiet_neighborhood() });
    assert_eq!(internal_get_text(&env).unwrap(), "High");
}

#[test]
fn fifty_first_ancestor_is_beyond_the_cap() {
    let mut ancestors: Vec<Element> = Vec::new();
    for _ in 0..50 {
        ancestors.push(plain());
    }
    ancestors.push(selecting("Too high"));
    let env = working(Neighborhood { ancestors, ..quiet_neighborhood() });
    assert_eq!(internal_get_text(&env).unwrap(), "");
}

#[test]
fn root_acquisition_failure_aborts_the_query() {
    let mut env = working(Neighborhood {
        focused: selecting("never read"),
        ..quiet_neighborhood()
    });
    env.root_failure = Some("access denied".to_string());
    match internal_get_text(&env) {
        Err(GetTextError::AutomationFailure(cause)) => assert_eq!(cause, "access denied"),
        other => panic!("unexpected outcome: {:?}", other),
    }
}

#[test]
fn walker_failure_reports_its_stage() {
    let mut env = working(quiet_neighborhood());
    env.walker_failure = Some("no walker".to_string());
    match internal_get_text(&env) {
        Err(GetTextError::AutomationFailure(cause)) => {
            assert_eq!(cause, "Failed to create tree walker: no walker");
        }
        other => panic!("unexpected outcome: {:?}", other),
    }
}

#[test]
fn focused_element_failure_reports_its_stage() {
    let mut env = working(quiet_neighborhood());
    env.focused_failure = Some("nothing focused".to_string());
    match internal_get_text(&env) {
        Err(GetTextError::AutomationFailure(cause)) => {
            assert_eq!(cause, "Failed to get focused element: nothing focused");
        }
        other => panic!("unexpected outcome: {:?}", other),
    }
}
