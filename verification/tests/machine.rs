use selected_text::error::GetTextError;
use selected_text::init::InitOnce;
use selected_text::search::{step, Event, Phase, Transition};
use selected_text::worker::{resolve_wait, WorkerWait, TIMEOUT_MILLIS};

#[test]
fn focused_answer_finishes_even_when_empty() {
    let t = step(Phase::ProbeFocused, Event::FocusedText(Some(String::new())));
    assert!(matches!(t, Transition::Finished(Ok(s)) if s.is_empty()));
}

#[test]
fn focused_silence_moves_to_next_sibling() {
    let t = step(Phase::ProbeFocused, Event::FocusedText(None));
    assert!(matches!(t, Transition::Next(Phase::ProbeNextSibling)));
}

#[test]
fn empty_sibling_text_is_a_miss() {
    let t = step(
        Phase::ProbeNextSibling,
        Event::CandidateText(Some(Some(String::new()))),
    );
    assert!(matches!(t, Transition::Next(Phase::ProbePrevSibling)));
}

#[test]
fn non_empty_sibling_text_wins() {
    let t = step(
        Phase::ProbePrevSibling,
        Event::CandidateText(Some(Some("near".to_string()))),
    );
    assert!(matches!(t, Transition::Finished(Ok(s)) if s == "near"));
}

#[test]
fn descendant_scan_stops_at_its_cap() {
    let t = step(
        Phase::ProbeDescendant { index: 49, count: 200 },
        Event::CandidateText(Some(None)),
    );
    assert!(matches!(t, Transition::Next(Phase::ProbeParent { hops: 0 })));
}

#[test]
fn descendant_miss_advances_within_the_cap() {
    let t = step(
        Phase::ProbeDescendant { index: 3, count: 10 },
        Event::CandidateText(None),
    );
    assert!(matches!(
        t,
        Transition::Next(Phase::ProbeDescendant { index: 4, count: 10 })
    ));
}

#[test]
fn ancestor_walk_stops_at_its_cap() {
    let t = step(
        Phase::ProbeParent { hops: 49 },
        Event::CandidateText(Some(None)),
    );
    assert!(matches!(t, Transition::Finished(Ok(s)) if s.is_empty()));
}

#[test]
fn ancestor_navigation_failure_ends_the_search_empty() {
    let t = step(Phase::ProbeParent { hops: 0 }, Event::CandidateText(None));
    assert!(matches!(t, Transition::Finished(Ok(s)) if s.is_empty()));
}

#[test]
fn condition_failure_aborts_with_its_message() {
    let t = step(
        Phase::AcquireCondition,
        Event::AcquireFailed("denied".to_string()),
    );
    match t {
        Transition::Finished(Err(GetTextError::AutomationFailure(cause))) => {
            assert_eq!(cause, "Failed to create condition: denied");
        }
        other => panic!("unexpected transition: {:?}", other),
    }
}

#[test]
fn empty_enumeration_skips_to_ancestors() {
    let t = step(Phase::FindDescendants, Event::DescendantCount(Some(0)));
    assert!(matches!(t, Transition::Next(Phase::ProbeParent { hops: 0 })));
}

#[test]
fn enumeration_starts_the_scan_at_zero() {
    let t = step(Phase::FindDescendants, Event::DescendantCount(Some(7)));
    assert!(matches!(
        t,
        Transition::Next(Phase::ProbeDescendant { index: 0, count: 7 })
    ));
}

#[test]
fn wait_bound_is_one_second() {
    assert_eq!(TIMEOUT_MILLIS, 1000);
}

#[test]
fn elapsed_wait_is_a_timeout_failure() {
    let r = resolve_wait(WorkerWait::TimedOut);
    assert!(matches!(r, Err(GetTextError::Timeout)));
}

#[test]
fn closed_channel_is_its_own_failure() {
    let r = resolve_wait(WorkerWait::ChannelClosed);
    assert!(matches!(r, Err(GetTextError::ChannelFailure)));
}

#[test]
fn delivered_outcome_passes_through() {
    let r = resolve_wait(WorkerWait::Delivered(Ok("done".to_string())));
    assert_eq!(r.unwrap(), "done");
    let r = resolve_wait(WorkerWait::Delivered(Err(GetTextError::ChannelFailure)));
    assert!(matches!(r, Err(GetTextError::ChannelFailure)));
}

#[test]
fn slow_worker_times_out_within_the_bound() {
    let rt = tokio::runtime::Builder::new_current_thread()
        .enable_time()
        .build()
        .unwrap();
    let started = std::time::Instant::now();
    let r = rt.block_on(async {
        let wait = match tokio::time::timeout(
            std::time::Duration::from_millis(TIMEOUT_MILLIS),
            tokio::time::sleep(std::time::Duration::from_millis(2000)),
        )
        .await
        {
            Err(_) => WorkerWait::TimedOut,
            Ok(()) => WorkerWait::Delivered(Ok(String::new())),
        };
        resolve_wait(wait)
    });
    assert!(matches!(r, Err(GetTextError::Timeout)));
    assert!(started.elapsed() < std::time::Duration::from_millis(1900));
}

#[test]
fn initialization_runs_once_and_only_once() {
    let mut guard = InitOnce::new();
    assert!(!guard.initialized);
    assert!(guard.ensure_initialized());
    let after_first = guard;
    assert!(!guard.ensure_initialized());
    assert!(!guard.ensure_initialized());
    assert_eq!(guard, after_first);
    assert!(guard.initialized);
}
