//! What holds of every resolution, proved from the resolver's definitions.

use vstd::prelude::*;
use crate::resolver::{
    initial, lemma_run_follows_table, next, resolution, run, Action, Effects, Event,
    LatestReason, Provenance, Resolution, ResolveError, ResolvedStartHeight, ResolverState, Step,
};
use crate::sources::{FinalizedHeightQueryResult, PersistedHeightQueryResult};
use crate::start_options::{BlockHeight, StartOptions};

verus! {

/// An explicit height is absolute: it is the outcome whatever the sources
/// would answer, and neither source is asked. The very first move of the
/// machine is final.
pub proof fn lemma_explicit_height_asks_nothing(
    height: BlockHeight,
    persisted: PersistedHeightQueryResult,
    finalized: FinalizedHeightQueryResult,
)
    ensures
        resolution(StartOptions::FromBlock { height }, persisted, finalized) == (Resolution {
            outcome: Ok(ResolvedStartHeight { height, provenance: Provenance::ExplicitHeight }),
            effects: Effects { persisted_queries: 0, finalized_queries: 0, warnings: 0 },
        }),
        initial(StartOptions::FromBlock { height }).action == Action::Start(
            ResolvedStartHeight { height, provenance: Provenance::ExplicitHeight },
        ),
{
}

/// Resumption starts at the recorded height whatever the network would
/// answer: the store is asked once and the network is not asked.
pub proof fn lemma_resumption_uses_recorded_height(
    height: BlockHeight,
    finalized: FinalizedHeightQueryResult,
)
    ensures
        resolution(
            StartOptions::FromInterruption,
            PersistedHeightQueryResult::Found(height),
            finalized,
        ) == (Resolution {
            outcome: Ok(ResolvedStartHeight { height, provenance: Provenance::Resumed }),
            effects: Effects { persisted_queries: 1, finalized_queries: 0, warnings: 0 },
        }),
{
}

/// Resumption from an empty store starts at the network's latest finalized
/// height, and records no warning: an empty history is no fault.
pub proof fn lemma_empty_store_falls_back_silently(height: BlockHeight)
    ensures
        resolution(
            StartOptions::FromInterruption,
            PersistedHeightQueryResult::NotFound,
            FinalizedHeightQueryResult::Finalized(height),
        ) == (Resolution {
            outcome: Ok(
                ResolvedStartHeight {
                    height,
                    provenance: Provenance::Latest(LatestReason::NoPriorRecord),
                },
            ),
            effects: Effects { persisted_queries: 1, finalized_queries: 1, warnings: 0 },
        }),
{
}

/// Resumption from a store that cannot be queried starts at the network's
/// latest finalized height, and records exactly one warning.
pub proof fn lemma_store_failure_falls_back_with_one_warning(height: BlockHeight)
    ensures
        resolution(
            StartOptions::FromInterruption,
            PersistedHeightQueryResult::Unavailable,
            FinalizedHeightQueryResult::Finalized(height),
        ) == (Resolution {
            outcome: Ok(
                ResolvedStartHeight {
                    height,
                    provenance: Provenance::Latest(LatestReason::PersistenceUnavailable),
                },
            ),
            effects: Effects { persisted_queries: 1, finalized_queries: 1, warnings: 1 },
        }),
{
}

/// A store that cannot be queried is treated as an empty one. Whatever the
/// network answers, both resolutions ask the same questions and end at the
/// same height or in the same error; they differ in the warning and in the
/// reason that the provenance gives.
pub proof fn lemma_store_failure_is_treated_as_empty_store(finalized: FinalizedHeightQueryResult)
    ensures
        ({
            let failed = resolution(
                StartOptions::FromInterruption,
                PersistedHeightQueryResult::Unavailable,
                finalized,
            );
            let empty = resolution(
                StartOptions::FromInterruption,
                PersistedHeightQueryResult::NotFound,
                finalized,
            );
            &&& failed.outcome is Ok <==> empty.outcome is Ok
            &&& failed.outcome is Ok ==> failed.outcome->Ok_0.height == empty.outcome->Ok_0.height
            &&& failed.outcome is Err ==> failed.outcome == empty.outcome
            &&& failed.effects.persisted_queries == empty.effects.persisted_queries
            &&& failed.effects.finalized_queries == empty.effects.finalized_queries
            &&& failed.effects.warnings == 1
            &&& empty.effects.warnings == 0
        }),
{
}

/// Starting from the latest block never touches the store: whatever the
/// store would answer, the outcome is the network's height, and only the
/// network is asked.
pub proof fn lemma_latest_never_asks_store(
    persisted: PersistedHeightQueryResult,
    height: BlockHeight,
)
    ensures
        resolution(
            StartOptions::FromLatest,
            persisted,
            FinalizedHeightQueryResult::Finalized(height),
        ) == (Resolution {
            outcome: Ok(
                ResolvedStartHeight {
                    height,
                    provenance: Provenance::Latest(LatestReason::Requested),
                },
            ),
            effects: Effects { persisted_queries: 0, finalized_queries: 1, warnings: 0 },
        }),
{
}

/// Starting from the latest block fails when the network fails: no height
/// comes out, whatever the store would answer, and the store is not asked.
pub proof fn lemma_latest_fails_without_network(persisted: PersistedHeightQueryResult)
    ensures
        resolution(
            StartOptions::FromLatest,
            persisted,
            FinalizedHeightQueryResult::NetworkError,
        ) == (Resolution {
            outcome: Err(ResolveError::NetworkUnavailable),
            effects: Effects { persisted_queries: 0, finalized_queries: 1, warnings: 0 },
        }),
{
}

/// A resolution fails exactly when the network was asked and failed. No
/// failure of the store is ever the outcome.
pub proof fn lemma_only_network_failure_is_fatal(
    mode: StartOptions,
    persisted: PersistedHeightQueryResult,
    finalized: FinalizedHeightQueryResult,
)
    ensures
        ({
            let result = resolution(mode, persisted, finalized);
            &&& result.outcome is Err <==> result.effects.finalized_queries == 1
                && finalized is NetworkError
            &&& result.outcome is Err ==> result.outcome == Err::<ResolvedStartHeight, ResolveError>(
                ResolveError::NetworkUnavailable,
            )
        }),
{
}

/// Each source is asked at most once. The network is asked after the store
/// only where the store gave no height, and a warning is recorded exactly
/// where the store was asked and could not be queried.
pub proof fn lemma_each_source_asked_at_most_once(
    mode: StartOptions,
    persisted: PersistedHeightQueryResult,
    finalized: FinalizedHeightQueryResult,
)
    ensures
        ({
            let effects = resolution(mode, persisted, finalized).effects;
            &&& effects.persisted_queries <= 1
            &&& effects.finalized_queries <= 1
            &&& effects.persisted_queries == 1 <==> mode is FromInterruption
            &&& effects.finalized_queries == 1 <==> mode is FromLatest || (mode is FromInterruption
                && !(persisted is Found))
            &&& effects.warnings == (if mode is FromInterruption && persisted is Unavailable {
                1int
            } else {
                0int
            })
        }),
{
}

/// The height that comes out is one that was put in: the operator's, the
/// store's or the network's, according to the provenance, and the
/// provenance fits the start options.
pub proof fn lemma_height_comes_from_its_source(
    mode: StartOptions,
    persisted: PersistedHeightQueryResult,
    finalized: FinalizedHeightQueryResult,
)
    requires
        resolution(mode, persisted, finalized).outcome is Ok,
    ensures
        ({
            let start = resolution(mode, persisted, finalized).outcome->Ok_0;
            match start.provenance {
                Provenance::ExplicitHeight => mode == (StartOptions::FromBlock {
                    height: start.height,
                }),
                Provenance::Resumed => mode is FromInterruption
                    && persisted == PersistedHeightQueryResult::Found(start.height),
                Provenance::Latest(reason) => {
                    &&& finalized == FinalizedHeightQueryResult::Finalized(start.height)
                    &&& match reason {
                        LatestReason::Requested => mode is FromLatest,
                        LatestReason::NoPriorRecord => mode is FromInterruption
                            && persisted is NotFound,
                        LatestReason::PersistenceUnavailable => mode is FromInterruption
                            && persisted is Unavailable,
                    }
                },
            }
        }),
{
}

/// Resolving twice against sources in the same state gives the same
/// result: the resolver keeps nothing between resolutions, and what comes
/// out depends on the start options and the two answers alone.
pub proof fn lemma_resolution_is_repeatable(
    mode: StartOptions,
    persisted: PersistedHeightQueryResult,
    finalized: FinalizedHeightQueryResult,
    first: Resolution,
    second: Resolution,
)
    requires
        first == resolution(mode, persisted, finalized),
        second == resolution(mode, persisted, finalized),
    ensures
        first == second,
{
}

/// The same holds of the machine: run twice from its first move against
/// sources in the same state, it ends in the same place, the one that the
/// table names.
pub proof fn lemma_run_is_repeatable(
    mode: StartOptions,
    persisted: PersistedHeightQueryResult,
    finalized: FinalizedHeightQueryResult,
    first: Resolution,
    second: Resolution,
)
    requires
        first == run(initial(mode).state, Effects::none(), persisted, finalized),
        second == run(initial(mode).state, Effects::none(), persisted, finalized),
    ensures
        first == second,
        first == resolution(mode, persisted, finalized),
{
    lemma_run_follows_table(mode, persisted, finalized);
}

/// A move is made only by the answer to the open question. Any other event
/// leaves the state as it is, repeats its action, and warns of nothing.
pub proof fn lemma_unexpected_event_changes_nothing(state: ResolverState, event: Event)
    requires
        !state.expects(event),
    ensures
        next(state, event) == Step::quiet(state),
{
}

/// A final state expects no event: once a resolution is over, nothing
/// moves it, and its action stays the same.
pub proof fn lemma_final_state_stays(state: ResolverState, event: Event)
    requires
        state.is_final(),
    ensures
        !state.expects(event),
        next(state, event).state == state,
        next(state, event).action == state.action(),
{
}

/// Every move that an answer causes uses up a query, so a resolution ends
/// after two answers at most. Every move names the action of the state it
/// leads to, and warns only when the store could not be queried.
pub proof fn lemma_answer_brings_the_end_closer(state: ResolverState, event: Event)
    requires
        state.expects(event),
    ensures
        next(state, event).state.queries_left() < state.queries_left(),
        next(state, event).action == next(state, event).state.action(),
        next(state, event).warning is Some <==> event == Event::PersistedHeight(
            PersistedHeightQueryResult::Unavailable,
        ),
{
}

} // verus!
