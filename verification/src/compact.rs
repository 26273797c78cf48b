//! The compactor: a fixed, sequential order of steps around the engine.
//!
//! Compacting one target reads its size, opens an engine connection, runs
//! the space-reclaiming rewrite, runs the index rebuild, and reads the size
//! again — in that order and only in that order. Both engine statements are
//! required; if any step fails, the whole operation fails with an error
//! tagged by the failing stage, and no partial success is reported. The
//! caller performs each step's outside work and feeds its outcome back.

use vstd::prelude::*;

use crate::errors::AppError;
use crate::sqlite_file::SQLiteFile;
use crate::sqlite_file::VacuumResult;

verus! {

/// Where one target's compaction stands in the fixed step order.
#[derive(Debug)]
pub enum CompactState {
    /// About to read the target's size for the first measurement.
    ReadBefore { db_file: SQLiteFile },
    /// About to open the engine connection.
    Opening { db_file: SQLiteFile, size_before: u64 },
    /// About to run the space-reclaiming rewrite.
    RunningVacuum { db_file: SQLiteFile, size_before: u64 },
    /// About to run the index rebuild.
    RunningReindex { db_file: SQLiteFile, size_before: u64 },
    /// About to read the target's size for the second measurement.
    ReadAfter { db_file: SQLiteFile, size_before: u64 },
    /// The compaction succeeded with these measurements.
    Done(VacuumResult),
    /// The compaction failed; no further step runs.
    Failed(AppError),
}

/// The outside work one step asks for.
#[derive(Debug, PartialEq, Eq, Structural)]
pub enum CompactAction {
    /// Read the target's size from fresh metadata.
    ReadSize,
    /// Open an engine connection to the target.
    OpenConnection,
    /// Run the space-reclaiming rewrite statement.
    ExecVacuum,
    /// Run the index-rebuild statement.
    ExecReindex,
    /// Nothing: the compaction has ended.
    Finished,
}

/// What the outside work of one step reported back.
#[derive(Debug)]
pub enum StepOutcome {
    SizeIs(u64),
    SizeFailed(String),
    Opened,
    OpenFailed(String),
    Executed,
    ExecFailed(String),
}

/// The action each state asks for.
pub open spec fn action_of(state: CompactState) -> CompactAction {
    match state {
        CompactState::ReadBefore { .. } => CompactAction::ReadSize,
        CompactState::Opening { .. } => CompactAction::OpenConnection,
        CompactState::RunningVacuum { .. } => CompactAction::ExecVacuum,
        CompactState::RunningReindex { .. } => CompactAction::ExecReindex,
        CompactState::ReadAfter { .. } => CompactAction::ReadSize,
        CompactState::Done(_) => CompactAction::Finished,
        CompactState::Failed(_) => CompactAction::Finished,
    }
}

/// Whether an outcome is of the kind the state's action can produce.
pub open spec fn outcome_fits(state: CompactState, outcome: StepOutcome) -> bool {
    match action_of(state) {
        CompactAction::ReadSize => outcome is SizeIs || outcome is SizeFailed,
        CompactAction::OpenConnection => outcome is Opened || outcome is OpenFailed,
        CompactAction::ExecVacuum => outcome is Executed || outcome is ExecFailed,
        CompactAction::ExecReindex => outcome is Executed || outcome is ExecFailed,
        CompactAction::Finished => false,
    }
}

/// The exact transition the step machine makes: success advances to the
/// next step of the fixed order; failure ends the compaction with an error
/// tagged by the failing stage and carrying the target's path.
pub open spec fn step_rel(state: CompactState, outcome: StepOutcome, next: CompactState) -> bool {
    match (state, outcome) {
        (CompactState::ReadBefore { db_file }, StepOutcome::SizeIs(n)) => next matches
            CompactState::Opening { db_file: d, size_before: b } && d@ == db_file@ && b == n,
        (CompactState::ReadBefore { db_file }, StepOutcome::SizeFailed(e)) => next matches
            CompactState::Failed(err) && err matches AppError::FileAccess { source, filename }
            && source == e && filename@ == db_file@,
        (CompactState::Opening { db_file, size_before }, StepOutcome::Opened) => next matches
            CompactState::RunningVacuum { db_file: d, size_before: b } && d@ == db_file@ && b
            == size_before,
        (CompactState::Opening { db_file, .. }, StepOutcome::OpenFailed(e)) => next matches
            CompactState::Failed(err) && err matches AppError::DatabaseOpen { source, filename }
            && source == e && filename@ == db_file@,
        (CompactState::RunningVacuum { db_file, size_before }, StepOutcome::Executed) => next
            matches CompactState::RunningReindex { db_file: d, size_before: b } && d@ == db_file@
            && b == size_before,
        (CompactState::RunningVacuum { db_file, .. }, StepOutcome::ExecFailed(e)) => next matches
            CompactState::Failed(err) && err matches AppError::Vacuum { source, filename }
            && source == e && filename@ == db_file@,
        (CompactState::RunningReindex { db_file, size_before }, StepOutcome::Executed) => next
            matches CompactState::ReadAfter { db_file: d, size_before: b } && d@ == db_file@ && b
            == size_before,
        (CompactState::RunningReindex { db_file, .. }, StepOutcome::ExecFailed(e)) => next matches
            CompactState::Failed(err) && err matches AppError::Vacuum { source, filename }
            && source == e && filename@ == db_file@,
        (CompactState::ReadAfter { db_file, size_before }, StepOutcome::SizeIs(n)) => next matches
            CompactState::Done(r) && r.spec_path() == db_file@ && r.spec_size_before()
            == size_before && r.spec_size_after() == n,
        (CompactState::ReadAfter { db_file, .. }, StepOutcome::SizeFailed(e)) => next matches
            CompactState::Failed(err) && err matches AppError::FileAccess { source, filename }
            && source == e && filename@ == db_file@,
        _ => false,
    }
}

/// Begins one target's compaction at the first step.
pub fn compact_start(db_file: SQLiteFile) -> (s: CompactState)
    ensures
        s matches CompactState::ReadBefore { db_file: d } && d@ == db_file@,
{
    CompactState::ReadBefore { db_file }
}

/// The outside work the caller must perform next.
pub fn compact_action(state: &CompactState) -> (a: CompactAction)
    ensures
        a == action_of(*state),
{
    match state {
        CompactState::ReadBefore { .. } => CompactAction::ReadSize,
        CompactState::Opening { .. } => CompactAction::OpenConnection,
        CompactState::RunningVacuum { .. } => CompactAction::ExecVacuum,
        CompactState::RunningReindex { .. } => CompactAction::ExecReindex,
        CompactState::ReadAfter { .. } => CompactAction::ReadSize,
        CompactState::Done(_) => CompactAction::Finished,
        CompactState::Failed(_) => CompactAction::Finished,
    }
}

/// The engine statement an action stands for, if it is an engine step.
pub fn action_statement(a: &CompactAction) -> (r: Option<&str>)
    ensures
        *a is ExecVacuum ==> (r matches Some(s) && s@ == "VACUUM;"@),
        *a is ExecReindex ==> (r matches Some(s) && s@ == "REINDEX;"@),
        !(*a is ExecVacuum || *a is ExecReindex) ==> r is None,
{
    match a {
        CompactAction::ExecVacuum => Some("VACUUM;"),
        CompactAction::ExecReindex => Some("REINDEX;"),
        _ => None,
    }
}

/// Advances the compaction by one step from what the outside work
/// reported.
pub fn compact_step(state: CompactState, outcome: StepOutcome) -> (next: CompactState)
    requires
        outcome_fits(state, outcome),
    ensures
        step_rel(state, outcome, next),
{
    match (state, outcome) {
        (CompactState::ReadBefore { db_file }, StepOutcome::SizeIs(n)) => CompactState::Opening {
            db_file,
            size_before: n,
        },
        (CompactState::ReadBefore { db_file }, StepOutcome::SizeFailed(e)) => CompactState::Failed(
            AppError::FileAccess { source: e, filename: db_file.into_path() },
        ),
        (
            CompactState::Opening { db_file, size_before },
            StepOutcome::Opened,
        ) => CompactState::RunningVacuum { db_file, size_before },
        (CompactState::Opening { db_file, .. }, StepOutcome::OpenFailed(e)) => CompactState::Failed(
            AppError::DatabaseOpen { source: e, filename: db_file.into_path() },
        ),
        (
            CompactState::RunningVacuum { db_file, size_before },
            StepOutcome::Executed,
        ) => CompactState::RunningReindex { db_file, size_before },
        (
            CompactState::RunningVacuum { db_file, .. },
            StepOutcome::ExecFailed(e),
        ) => CompactState::Failed(AppError::Vacuum { source: e, filename: db_file.into_path() }),
        (
            CompactState::RunningReindex { db_file, size_before },
            StepOutcome::Executed,
        ) => CompactState::ReadAfter { db_file, size_before },
        (
            CompactState::RunningReindex { db_file, .. },
            StepOutcome::ExecFailed(e),
        ) => CompactState::Failed(AppError::Vacuum { source: e, filename: db_file.into_path() }),
        (
            CompactState::ReadAfter { db_file, size_before },
            StepOutcome::SizeIs(n),
        ) => CompactState::Done(VacuumResult::new(db_file, size_before, n)),
        (
            CompactState::ReadAfter { db_file, .. },
            StepOutcome::SizeFailed(e),
        ) => CompactState::Failed(
            AppError::FileAccess { source: e, filename: db_file.into_path() },
        ),
        (state, _) => state,
    }
}

/// The outcome of an ended compaction.
pub fn compact_result(state: CompactState) -> (r: Result<VacuumResult, AppError>)
    requires
        action_of(state) is Finished,
    ensures
        state matches CompactState::Done(v) ==> (r matches Ok(v2) && v2 == v),
        state matches CompactState::Failed(e) ==> (r matches Err(e2) && e2 == e),
{
    match state {
        CompactState::Done(v) => Ok(v),
        CompactState::Failed(e) => Err(e),
        _ => Err(
            AppError::Vacuum { source: String::new(), filename: String::new() },
        ),
    }
}

/// One compaction can reclaim at most the whole file as measured before
/// it ran, and its delta always fits the well-formed event bound.
pub proof fn lemma_delta_bounds(r: VacuumResult)
    ensures
        r.spec_delta() <= r.spec_size_before(),
        -(u64::MAX as int) <= r.spec_delta() <= u64::MAX as int,
{
}

/// A rerun on an already-compacted target whose size the engine leaves
/// unchanged reports a delta of exactly zero. (That a stable target's size
/// does not change on a rerun is the engine's behaviour, outside this
/// crate; this pins what is reported whenever it holds.)
pub proof fn lemma_rerun_stable(first: VacuumResult, second: VacuumResult)
    requires
        second.spec_size_before() == first.spec_size_after(),
        second.spec_size_after() == second.spec_size_before(),
    ensures
        second.spec_delta() == 0,
{
}

} // verus!
