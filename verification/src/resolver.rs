//! The start-height resolver: which block height streaming begins at.
//!
//! The resolver asks nothing itself. It is a small machine that tells its
//! caller which source to ask next and takes the answer back, so the caller
//! is free to ask in whatever way it has. A resolution consults each source
//! at most once, and only the sources that its start options call for.

use vstd::prelude::*;
use crate::sources::{FinalizedHeightQueryResult, PersistedHeightQueryResult};
use crate::start_options::{BlockHeight, StartOptions};

verus! {

/// Why the network was asked for its latest finalized height.
#[derive(Clone, Copy, Debug, PartialEq, Eq, Structural)]
pub enum LatestReason {
    /// The operator asked to start from the latest block.
    Requested,
    /// Resumption was asked for and the store holds no record.
    NoPriorRecord,
    /// Resumption was asked for and the store could not be queried.
    PersistenceUnavailable,
}

/// The path that produced a start height.
#[derive(Clone, Copy, Debug, PartialEq, Eq, Structural)]
pub enum Provenance {
    /// The operator gave the height.
    ExplicitHeight,
    /// The store gave the height that an earlier run recorded.
    Resumed,
    /// The network gave its latest finalized height.
    Latest(LatestReason),
}

/// The block height to begin streaming from, and how it came about.
#[derive(Clone, Copy, Debug, PartialEq, Eq, Structural)]
pub struct ResolvedStartHeight {
    pub height: BlockHeight,
    pub provenance: Provenance,
}

/// Why a resolution produced no height.
#[derive(Clone, Copy, Debug, PartialEq, Eq, Structural)]
pub enum ResolveError {
    /// The network could not tell its latest finalized height. Nothing is
    /// left to fall back on.
    NetworkUnavailable,
}

/// A degradation that the caller records and that does not stop the
/// resolution.
#[derive(Clone, Copy, Debug, PartialEq, Eq, Structural)]
pub enum Warning {
    /// The store could not be queried; the network is asked instead.
    PersistenceUnavailable,
}

/// What the caller does next.
#[derive(Clone, Copy, Debug, PartialEq, Eq, Structural)]
pub enum Action {
    /// Ask the store for the highest recorded height, and report the answer.
    QueryPersistedHeight,
    /// Ask the network for its latest finalized height, and report the
    /// answer.
    QueryFinalizedHeight,
    /// Begin streaming at this height. The resolution is over.
    Start(ResolvedStartHeight),
    /// Give up. The resolution is over.
    Abort(ResolveError),
}

/// An answer that the caller reports back.
#[derive(Clone, Copy, Debug, PartialEq, Eq, Structural)]
pub enum Event {
    PersistedHeight(PersistedHeightQueryResult),
    FinalizedHeight(FinalizedHeightQueryResult),
}

/// Where a resolution stands.
#[derive(Clone, Copy, Debug, PartialEq, Eq, Structural)]
pub enum ResolverState {
    /// The store has been asked; its answer is awaited.
    AwaitingPersistedHeight,
    /// The network has been asked, for the given reason; its answer is
    /// awaited.
    AwaitingFinalizedHeight(LatestReason),
    /// A height has been determined.
    Resolved(ResolvedStartHeight),
    /// No height can be determined.
    Failed(ResolveError),
}

/// One move of the resolver.
#[derive(Clone, Copy, Debug, PartialEq, Eq, Structural)]
pub struct Step {
    /// The state after the move.
    pub state: ResolverState,
    /// What the caller does next; always the action that `state` calls for.
    pub action: Action,
    /// A warning to record before acting, if the move degraded.
    pub warning: Option<Warning>,
}

impl ResolverState {
    /// The action that a state calls for.
    pub open spec fn action(self) -> Action {
        match self {
            ResolverState::AwaitingPersistedHeight => Action::QueryPersistedHeight,
            ResolverState::AwaitingFinalizedHeight(_) => Action::QueryFinalizedHeight,
            ResolverState::Resolved(start) => Action::Start(start),
            ResolverState::Failed(error) => Action::Abort(error),
        }
    }

    /// Whether the resolution is over.
    pub open spec fn is_final(self) -> bool {
        self is Resolved || self is Failed
    }

    /// Whether the event answers the question that the state has open.
    pub open spec fn expects(self, event: Event) -> bool {
        match (self, event) {
            (ResolverState::AwaitingPersistedHeight, Event::PersistedHeight(_)) => true,
            (ResolverState::AwaitingFinalizedHeight(_), Event::FinalizedHeight(_)) => true,
            _ => false,
        }
    }

    /// The most queries that can still follow.
    pub open spec fn queries_left(self) -> nat {
        match self {
            ResolverState::AwaitingPersistedHeight => 2,
            ResolverState::AwaitingFinalizedHeight(_) => 1,
            ResolverState::Resolved(_) => 0,
            ResolverState::Failed(_) => 0,
        }
    }

    /// The action that this state calls for.
    pub fn pending_action(&self) -> (action: Action)
        ensures
            action == self.action(),
    {
        match self {
            ResolverState::AwaitingPersistedHeight => Action::QueryPersistedHeight,
            ResolverState::AwaitingFinalizedHeight(_) => Action::QueryFinalizedHeight,
            ResolverState::Resolved(start) => Action::Start(*start),
            ResolverState::Failed(error) => Action::Abort(*error),
        }
    }
}

impl Step {
    /// The move into `state` with nothing to warn about.
    pub open spec fn quiet(state: ResolverState) -> Step {
        Step { state, action: state.action(), warning: None }
    }
}

/// The first move, by start options.
///
/// An explicit height is final at once and no source is asked. Resumption
/// asks the store. Starting from the latest block asks the network.
pub open spec fn initial(mode: StartOptions) -> Step {
    match mode {
        StartOptions::FromBlock { height } => Step::quiet(
            ResolverState::Resolved(
                ResolvedStartHeight { height, provenance: Provenance::ExplicitHeight },
            ),
        ),
        StartOptions::FromInterruption => Step::quiet(ResolverState::AwaitingPersistedHeight),
        StartOptions::FromLatest => Step::quiet(
            ResolverState::AwaitingFinalizedHeight(LatestReason::Requested),
        ),
    }
}

/// The move that an event causes in a state.
///
/// A recorded height ends the resolution. An empty store and a failed query
/// both turn to the network, the failure with a warning. The network's
/// height ends the resolution; its failure is fatal. An event that does not
/// answer the open question changes nothing, and a final state stays as it
/// is.
pub open spec fn next(state: ResolverState, event: Event) -> Step {
    match (state, event) {
        (
            ResolverState::AwaitingPersistedHeight,
            Event::PersistedHeight(PersistedHeightQueryResult::Found(height)),
        ) => Step::quiet(
            ResolverState::Resolved(
                ResolvedStartHeight { height, provenance: Provenance::Resumed },
            ),
        ),
        (
            ResolverState::AwaitingPersistedHeight,
            Event::PersistedHeight(PersistedHeightQueryResult::NotFound),
        ) => Step::quiet(ResolverState::AwaitingFinalizedHeight(LatestReason::NoPriorRecord)),
        (
            ResolverState::AwaitingPersistedHeight,
            Event::PersistedHeight(PersistedHeightQueryResult::Unavailable),
        ) => Step {
            state: ResolverState::AwaitingFinalizedHeight(LatestReason::PersistenceUnavailable),
            action: Action::QueryFinalizedHeight,
            warning: Some(Warning::PersistenceUnavailable),
        },
        (
            ResolverState::AwaitingFinalizedHeight(reason),
            Event::FinalizedHeight(FinalizedHeightQueryResult::Finalized(height)),
        ) => Step::quiet(
            ResolverState::Resolved(
                ResolvedStartHeight { height, provenance: Provenance::Latest(reason) },
            ),
        ),
        (
            ResolverState::AwaitingFinalizedHeight(_),
            Event::FinalizedHeight(FinalizedHeightQueryResult::NetworkError),
        ) => Step::quiet(ResolverState::Failed(ResolveError::NetworkUnavailable)),
        _ => Step::quiet(state),
    }
}

/// Makes the first move of a resolution.
pub fn begin(mode: StartOptions) -> (step: Step)
    ensures
        step == initial(mode),
{
    let state = match mode {
        StartOptions::FromBlock { height } => ResolverState::Resolved(
            ResolvedStartHeight { height, provenance: Provenance::ExplicitHeight },
        ),
        StartOptions::FromInterruption => ResolverState::AwaitingPersistedHeight,
        StartOptions::FromLatest => ResolverState::AwaitingFinalizedHeight(
            LatestReason::Requested,
        ),
    };
    Step { state, action: state.pending_action(), warning: None }
}

/// Makes the move that `event` causes in `state`.
pub fn step(state: ResolverState, event: Event) -> (step: Step)
    ensures
        step == next(state, event),
{
    let mut warning: Option<Warning> = None;
    let state = match state {
        ResolverState::AwaitingPersistedHeight => match event {
            Event::PersistedHeight(PersistedHeightQueryResult::Found(height)) => {
                ResolverState::Resolved(
                    ResolvedStartHeight { height, provenance: Provenance::Resumed },
                )
            },
            Event::PersistedHeight(PersistedHeightQueryResult::NotFound) => {
                ResolverState::AwaitingFinalizedHeight(LatestReason::NoPriorRecord)
            },
            Event::PersistedHeight(PersistedHeightQueryResult::Unavailable) => {
                warning = Some(Warning::PersistenceUnavailable);
                ResolverState::AwaitingFinalizedHeight(LatestReason::PersistenceUnavailable)
            },
            Event::FinalizedHeight(_) => state,
        },
        ResolverState::AwaitingFinalizedHeight(reason) => match event {
            Event::FinalizedHeight(FinalizedHeightQueryResult::Finalized(height)) => {
                ResolverState::Resolved(
                    ResolvedStartHeight { height, provenance: Provenance::Latest(reason) },
                )
            },
            Event::FinalizedHeight(FinalizedHeightQueryResult::NetworkError) => {
                ResolverState::Failed(ResolveError::NetworkUnavailable)
            },
            Event::PersistedHeight(_) => state,
        },
        ResolverState::Resolved(_) => state,
        ResolverState::Failed(_) => state,
    };
    Step { state, action: state.pending_action(), warning }
}

/// What a resolution cost: how often each source was asked, and how many
/// warnings were recorded.
#[derive(Clone, Copy, Debug, PartialEq, Eq, Structural)]
pub struct Effects {
    pub persisted_queries: u32,
    pub finalized_queries: u32,
    pub warnings: u32,
}

/// A finished resolution: the height or the fatal error, and what it cost.
#[derive(Clone, Copy, Debug, PartialEq, Eq)]
pub struct Resolution {
    pub outcome: Result<ResolvedStartHeight, ResolveError>,
    pub effects: Effects,
}

impl Effects {
    /// Nothing asked, nothing warned.
    pub open spec fn none() -> Effects {
        Effects { persisted_queries: 0, finalized_queries: 0, warnings: 0 }
    }

    /// The effects once `action` has been carried out and its answer has
    /// raised `warning`.
    pub open spec fn after(self, action: Action, warning: Option<Warning>) -> Effects {
        Effects {
            persisted_queries: if action is QueryPersistedHeight {
                (self.persisted_queries + 1) as u32
            } else {
                self.persisted_queries
            },
            finalized_queries: if action is QueryFinalizedHeight {
                (self.finalized_queries + 1) as u32
            } else {
                self.finalized_queries
            },
            warnings: if warning is Some {
                (self.warnings + 1) as u32
            } else {
                self.warnings
            },
        }
    }
}

/// What asking the network leads to, when it is asked for `reason`.
pub open spec fn latest(reason: LatestReason, finalized: FinalizedHeightQueryResult) -> Result<
    ResolvedStartHeight,
    ResolveError,
> {
    match finalized {
        FinalizedHeightQueryResult::Finalized(height) => Ok(
            ResolvedStartHeight { height, provenance: Provenance::Latest(reason) },
        ),
        FinalizedHeightQueryResult::NetworkError => Err(ResolveError::NetworkUnavailable),
    }
}

/// The resolution of `mode` when the store would answer `persisted` and the
/// network would answer `finalized`, as a table.
///
/// | start options      | store         | outcome            | store asked | network asked | warnings |
/// |--------------------|---------------|--------------------|-------------|---------------|----------|
/// | `FromBlock`        | any           | the given height   | 0           | 0             | 0        |
/// | `FromInterruption` | `Found`       | the found height   | 1           | 0             | 0        |
/// | `FromInterruption` | `NotFound`    | as the network says | 1          | 1             | 0        |
/// | `FromInterruption` | `Unavailable` | as the network says | 1          | 1             | 1        |
/// | `FromLatest`       | any           | as the network says | 0          | 1             | 0        |
pub open spec fn resolution(
    mode: StartOptions,
    persisted: PersistedHeightQueryResult,
    finalized: FinalizedHeightQueryResult,
) -> Resolution {
    match mode {
        StartOptions::FromBlock { height } => Resolution {
            outcome: Ok(ResolvedStartHeight { height, provenance: Provenance::ExplicitHeight }),
            effects: Effects::none(),
        },
        StartOptions::FromInterruption => match persisted {
            PersistedHeightQueryResult::Found(height) => Resolution {
                outcome: Ok(ResolvedStartHeight { height, provenance: Provenance::Resumed }),
                effects: Effects { persisted_queries: 1, finalized_queries: 0, warnings: 0 },
            },
            PersistedHeightQueryResult::NotFound => Resolution {
                outcome: latest(LatestReason::NoPriorRecord, finalized),
                effects: Effects { persisted_queries: 1, finalized_queries: 1, warnings: 0 },
            },
            PersistedHeightQueryResult::Unavailable => Resolution {
                outcome: latest(LatestReason::PersistenceUnavailable, finalized),
                effects: Effects { persisted_queries: 1, finalized_queries: 1, warnings: 1 },
            },
        },
        StartOptions::FromLatest => Resolution {
            outcome: latest(LatestReason::Requested, finalized),
            effects: Effects { persisted_queries: 0, finalized_queries: 1, warnings: 0 },
        },
    }
}

/// Where the machine ends when it starts in `state` with `effects` behind
/// it, every action is carried out, and the sources answer `persisted` and
/// `finalized`.
pub open spec fn run(
    state: ResolverState,
    effects: Effects,
    persisted: PersistedHeightQueryResult,
    finalized: FinalizedHeightQueryResult,
) -> Resolution
    decreases state.queries_left(),
{
    match state {
        ResolverState::Resolved(start) => Resolution { outcome: Ok(start), effects },
        ResolverState::Failed(error) => Resolution { outcome: Err(error), effects },
        ResolverState::AwaitingPersistedHeight => {
            let step = next(state, Event::PersistedHeight(persisted));
            run(step.state, effects.after(state.action(), step.warning), persisted, finalized)
        },
        ResolverState::AwaitingFinalizedHeight(_) => {
            let step = next(state, Event::FinalizedHeight(finalized));
            run(step.state, effects.after(state.action(), step.warning), persisted, finalized)
        },
    }
}

/// The machine, run from its first move against sources that answer
/// `persisted` and `finalized`, ends as the table says.
pub proof fn lemma_run_follows_table(
    mode: StartOptions,
    persisted: PersistedHeightQueryResult,
    finalized: FinalizedHeightQueryResult,
)
    ensures
        run(initial(mode).state, Effects::none(), persisted, finalized) == resolution(
            mode,
            persisted,
            finalized,
        ),
{
    reveal_with_fuel(run, 3);
}

/// Resolves `mode` against sources that answer `persisted` and `finalized`
/// when asked.
///
/// The machine is run to its end: each action it calls for is carried out
/// against the given answers and counted. The result is the row of the
/// table for these inputs.
pub fn resolve(
    mode: StartOptions,
    persisted: PersistedHeightQueryResult,
    finalized: FinalizedHeightQueryResult,
) -> (result: Resolution)
    ensures
        result == resolution(mode, persisted, finalized),
{
    let first = begin(mode);
    let mut state = first.state;
    let mut effects = Effects { persisted_queries: 0, finalized_queries: 0, warnings: 0 };
    proof {
        lemma_run_follows_table(mode, persisted, finalized);
    }
    loop
        invariant
            effects.persisted_queries + effects.finalized_queries + state.queries_left() <= 2,
            effects.warnings <= effects.persisted_queries + effects.finalized_queries,
            run(state, effects, persisted, finalized) == resolution(mode, persisted, finalized),
        decreases state.queries_left(),
    {
        let moved = match state.pending_action() {
            Action::Start(start) => {
                return Resolution { outcome: Ok(start), effects };
            },
            Action::Abort(error) => {
                return Resolution { outcome: Err(error), effects };
            },
            Action::QueryPersistedHeight => {
                effects.persisted_queries = effects.persisted_queries + 1;
                step(state, Event::PersistedHeight(persisted))
            },
            Action::QueryFinalizedHeight => {
                effects.finalized_queries = effects.finalized_queries + 1;
                step(state, Event::FinalizedHeight(finalized))
            },
        };
        if moved.warning.is_some() {
            effects.warnings = effects.warnings + 1;
        }
        state = moved.state;
    }
}

} // verus!
