use indexer_for_explorer::resolver::{
    begin, step, Action, Event, LatestReason, Provenance, ResolveError, ResolvedStartHeight,
    ResolverState, Step, Warning,
};
use indexer_for_explorer::sources::{FinalizedHeightQueryResult, PersistedHeightQueryResult};
use indexer_for_explorer::start_options::StartOptions;

fn every_event() -> Vec<Event> {
    vec![
        Event::PersistedHeight(PersistedHeightQueryResult::Found(1)),
        Event::PersistedHeight(PersistedHeightQueryResult::NotFound),
        Event::PersistedHeight(PersistedHeightQueryResult::Unavailable),
        Event::FinalizedHeight(FinalizedHeightQueryResult::Finalized(2)),
        Event::FinalizedHeight(FinalizedHeightQueryResult::NetworkError),
    ]
}

#[test]
fn an_explicit_height_is_final_at_the_first_move() {
    let start = ResolvedStartHeight { height: 42, provenance: Provenance::ExplicitHeight };
    assert_eq!(
        begin(StartOptions::FromBlock { height: 42 }),
        Step { state: ResolverState::Resolved(start), action: Action::Start(start), warning: None }
    );
}

#[test]
fn resumption_begins_by_asking_the_store() {
    assert_eq!(
        begin(StartOptions::FromInterruption),
        Step {
            state: ResolverState::AwaitingPersistedHeight,
            action: Action::QueryPersistedHeight,
            warning: None,
        }
    );
}

#[test]
fn latest_begins_by_asking_the_network() {
    assert_eq!(
        begin(StartOptions::FromLatest),
        Step {
            state: ResolverState::AwaitingFinalizedHeight(LatestReason::Requested),
            action: Action::QueryFinalizedHeight,
            warning: None,
        }
    );
}

#[test]
fn a_recorded_height_ends_the_resolution() {
    let start = ResolvedStartHeight { height: 100, provenance: Provenance::Resumed };
    assert_eq!(
        step(
            ResolverState::AwaitingPersistedHeight,
            Event::PersistedHeight(PersistedHeightQueryResult::Found(100)),
        ),
        Step { state: ResolverState::Resolved(start), action: Action::Start(start), warning: None }
    );
}

#[test]
fn an_empty_store_turns_to_the_network_without_a_warning() {
    assert_eq!(
        step(
            ResolverState::AwaitingPersistedHeight,
            Event::PersistedHeight(PersistedHeightQueryResult::NotFound),
        ),
        Step {
            state: ResolverState::AwaitingFinalizedHeight(LatestReason::NoPriorRecord),
            action: Action::QueryFinalizedHeight,
            warning: None,
        }
    );
}

#[test]
fn a_store_that_is_down_turns_to_the_network_with_a_warning() {
    assert_eq!(
        step(
            ResolverState::AwaitingPersistedHeight,
            Event::PersistedHeight(PersistedHeightQueryResult::Unavailable),
        ),
        Step {
            state: ResolverState::AwaitingFinalizedHeight(LatestReason::PersistenceUnavailable),
            action: Action::QueryFinalizedHeight,
            warning: Some(Warning::PersistenceUnavailable),
        }
    );
}

#[test]
fn the_finalized_height_ends_the_resolution_and_keeps_the_reason() {
    let reasons = [
        LatestReason::Requested,
        LatestReason::NoPriorRecord,
        LatestReason::PersistenceUnavailable,
    ];
    for reason in reasons {
        let start = ResolvedStartHeight { height: 500, provenance: Provenance::Latest(reason) };
        assert_eq!(
            step(
                ResolverState::AwaitingFinalizedHeight(reason),
                Event::FinalizedHeight(FinalizedHeightQueryResult::Finalized(500)),
            ),
            Step {
                state: ResolverState::Resolved(start),
                action: Action::Start(start),
                warning: None,
            }
        );
    }
}

#[test]
fn a_network_failure_is_fatal() {
    let reasons = [
        LatestReason::Requested,
        LatestReason::NoPriorRecord,
        LatestReason::PersistenceUnavailable,
    ];
    for reason in reasons {
        assert_eq!(
            step(
                ResolverState::AwaitingFinalizedHeight(reason),
                Event::FinalizedHeight(FinalizedHeightQueryResult::NetworkError),
            ),
            Step {
                state: ResolverState::Failed(ResolveError::NetworkUnavailable),
                action: Action::Abort(ResolveError::NetworkUnavailable),
                warning: None,
            }
        );
    }
}

#[test]
fn an_event_that_answers_another_question_changes_nothing() {
    let network = [
        Event::FinalizedHeight(FinalizedHeightQueryResult::Finalized(2)),
        Event::FinalizedHeight(FinalizedHeightQueryResult::NetworkError),
    ];
    for event in network {
        assert_eq!(
            step(ResolverState::AwaitingPersistedHeight, event),
            Step {
                state: ResolverState::AwaitingPersistedHeight,
                action: Action::QueryPersistedHeight,
                warning: None,
            }
        );
    }
    let store = [
        Event::PersistedHeight(PersistedHeightQueryResult::Found(1)),
        Event::PersistedHeight(PersistedHeightQueryResult::NotFound),
        Event::PersistedHeight(PersistedHeightQueryResult::Unavailable),
    ];
    for event in store {
        let state = ResolverState::AwaitingFinalizedHeight(LatestReason::NoPriorRecord);
        assert_eq!(
            step(state, event),
            Step { state, action: Action::QueryFinalizedHeight, warning: None }
        );
    }
}

#[test]
fn a_final_state_stays_as_it_is() {
    let start = ResolvedStartHeight { height: 7, provenance: Provenance::Resumed };
    for event in every_event() {
        assert_eq!(
            step(ResolverState::Resolved(start), event),
            Step {
                state: ResolverState::Resolved(start),
                action: Action::Start(start),
                warning: None,
            }
        );
        assert_eq!(
            step(ResolverState::Failed(ResolveError::NetworkUnavailable), event),
            Step {
                state: ResolverState::Failed(ResolveError::NetworkUnavailable),
                action: Action::Abort(ResolveError::NetworkUnavailable),
                warning: None,
            }
        );
    }
}

#[test]
fn every_state_names_its_action() {
    let start = ResolvedStartHeight { height: 7, provenance: Provenance::ExplicitHeight };
    assert_eq!(
        ResolverState::AwaitingPersistedHeight.pending_action(),
        Action::QueryPersistedHeight
    );
    assert_eq!(
        ResolverState::AwaitingFinalizedHeight(LatestReason::Requested).pending_action(),
        Action::QueryFinalizedHeight
    );
    assert_eq!(ResolverState::Resolved(start).pending_action(), Action::Start(start));
    assert_eq!(
        ResolverState::Failed(ResolveError::NetworkUnavailable).pending_action(),
        Action::Abort(ResolveError::NetworkUnavailable)
    );
}

#[test]
fn a_caller_that_follows_the_actions_asks_each_source_once_at_most() {
    let modes = [
        StartOptions::FromBlock { height: 9 },
        StartOptions::FromInterruption,
        StartOptions::FromLatest,
    ];
    let store = [
        PersistedHeightQueryResult::Found(100),
        PersistedHeightQueryResult::NotFound,
        PersistedHeightQueryResult::Unavailable,
    ];
    let network =
        [FinalizedHeightQueryResult::Finalized(500), FinalizedHeightQueryResult::NetworkError];
    for mode in modes {
        for persisted in store {
            for finalized in network {
                let mut asked_store = 0;
                let mut asked_network = 0;
                let mut moved = begin(mode);
                let mut moves = 0;
                loop {
                    match moved.action {
                        Action::QueryPersistedHeight => {
                            asked_store += 1;
                            moved = step(moved.state, Event::PersistedHeight(persisted));
                        }
                        Action::QueryFinalizedHeight => {
                            asked_network += 1;
                            moved = step(moved.state, Event::FinalizedHeight(finalized));
                        }
                        Action::Start(_) | Action::Abort(_) => break,
                    }
                    moves += 1;
                    assert!(moves <= 2);
                }
                assert!(asked_store <= 1);
                assert!(asked_network <= 1);
                assert_eq!(asked_store == 1, mode == StartOptions::FromInterruption);
            }
        }
    }
}
