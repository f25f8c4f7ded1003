//! The file-walk orchestrator's decision rules: run classification, the
//! single-file pre-check, and the recursive walk with idempotent skips
//! and per-entry failure isolation. The I/O itself — walking, reading,
//! downloading, writing — happens outside; this module decides what is
//! done and records what became of each entry.

use vstd::prelude::*;

use crate::model::FailureKind;

verus! {

/// How a run treats its input path.
#[derive(Clone, Copy, Debug, PartialEq, Eq, Structural)]
pub enum RunMode {
    /// The input is a single file: one pipeline pass, every failure fatal.
    SingleFile,
    /// The input is a directory walked recursively, with per-entry
    /// failure isolation.
    DirectoryRecursive,
}

/// How the output file is created in single-file mode.
#[derive(Clone, Copy, Debug, PartialEq, Eq, Structural)]
pub enum WriteMode {
    /// Truncate or create: overwriting was forced.
    Truncate,
    /// Create only: the write itself fails if the file appears meanwhile.
    CreateNew,
}

/// What the pipeline — tag read, search, selection, download, write —
/// reported for one processed entry.
#[derive(Clone, Copy, Debug, PartialEq, Eq, Structural)]
pub enum PipelineResult {
    /// The artwork was found, downloaded and written.
    Success,
    /// Some stage failed.
    Failure(FailureKind),
}

/// One entry of a recursive walk as the orchestrator observes it: the
/// shape of the path, whether the per-directory output already exists,
/// and what the pipeline reports if the entry is processed.
#[derive(Clone, Copy, Debug, PartialEq, Eq, Structural)]
pub struct WalkEntry {
    pub is_dir: bool,
    pub output_exists: bool,
    pub result: PipelineResult,
}

/// What became of one entry of a recursive walk.
#[derive(Clone, Copy, Debug, PartialEq, Eq, Structural)]
pub enum EntryOutcome {
    /// The artwork was written.
    Written,
    /// The entry was passed over, without work and without error: a
    /// directory, or an output already present with `force` unset.
    Skipped,
    /// The pipeline failed on this entry.
    Failed(FailureKind),
}

/// Classify the run from the shape of the input path and the recursive
/// flag. A directory without explicit recursive opt-in is refused
/// outright, before any processing.
pub fn classify_run(is_dir: bool, recursive: bool) -> (r: Result<RunMode, FailureKind>)
    ensures
        !is_dir ==> r is Ok && r->Ok_0 is SingleFile,
        is_dir && recursive ==> r is Ok && r->Ok_0 is DirectoryRecursive,
        is_dir && !recursive ==> r is Err && r->Err_0 == FailureKind::NotRecursive,
{
    if is_dir {
        if recursive {
            Ok(RunMode::DirectoryRecursive)
        } else {
            Err(FailureKind::NotRecursive)
        }
    } else {
        Ok(RunMode::SingleFile)
    }
}

/// The single-file pre-check: with `force` unset an existing output fails
/// the whole run — a single explicit target is never silently skipped.
/// With `force` set the output is truncated or created.
pub fn single_file_plan(output_exists: bool, force: bool) -> (r: Result<WriteMode, FailureKind>)
    ensures
        output_exists && !force <==> r is Err,
        r is Err ==> r->Err_0 == FailureKind::OutputExists,
        force ==> r is Ok && r->Ok_0 is Truncate,
        !output_exists && !force ==> r is Ok && r->Ok_0 is CreateNew,
{
    if force {
        Ok(WriteMode::Truncate)
    } else if output_exists {
        Err(FailureKind::OutputExists)
    } else {
        Ok(WriteMode::CreateNew)
    }
}

/// Whether an entry of a recursive walk is processed at all: directories
/// are passed over, and so is any entry whose output already exists
/// unless `force` is set — re-runs do no redundant work.
pub open spec fn spec_entry_processed(is_dir: bool, output_exists: bool, force: bool) -> bool {
    !is_dir && (force || !output_exists)
}

/// Decide whether one walk entry is processed.
pub fn entry_processed(is_dir: bool, output_exists: bool, force: bool) -> (r: bool)
    ensures
        r == spec_entry_processed(is_dir, output_exists, force),
{
    !is_dir && (force || !output_exists)
}

/// The outcome one entry of a recursive walk receives.
pub open spec fn spec_entry_outcome(e: WalkEntry, force: bool) -> EntryOutcome {
    if !spec_entry_processed(e.is_dir, e.output_exists, force) {
        EntryOutcome::Skipped
    } else {
        match e.result {
            PipelineResult::Success => EntryOutcome::Written,
            PipelineResult::Failure(k) => EntryOutcome::Failed(k),
        }
    }
}

/// Record what became of one entry. Total: every failure kind yields an
/// outcome, none aborts the computation.
pub fn entry_outcome(e: &WalkEntry, force: bool) -> (r: EntryOutcome)
    ensures
        r == spec_entry_outcome(*e, force),
{
    if !entry_processed(e.is_dir, e.output_exists, force) {
        EntryOutcome::Skipped
    } else {
        match e.result {
            PipelineResult::Success => EntryOutcome::Written,
            PipelineResult::Failure(k) => EntryOutcome::Failed(k),
        }
    }
}

/// Whether a per-entry outcome aborts the whole walk. Per-file problems —
/// unreadable tags, missing fields, no candidates, a failed search — are
/// isolated; unrecoverable I/O while downloading or writing points at the
/// environment, not the entry, and stays fatal in every mode.
pub open spec fn spec_outcome_fatal(o: EntryOutcome) -> bool {
    o == EntryOutcome::Failed(FailureKind::Io)
}

/// Decide whether an outcome aborts the walk.
pub fn outcome_fatal(o: &EntryOutcome) -> (r: bool)
    ensures
        r == spec_outcome_fatal(*o),
{
    matches!(o, EntryOutcome::Failed(FailureKind::Io))
}

/// Drive a recursive walk over its entries in order. Every entry up to
/// the first fatal outcome receives exactly the outcome
/// `spec_entry_outcome` assigns it; a fatal outcome stops the walk there
/// and surfaces its kind; and when no entry's outcome is fatal — however
/// many entries fail on their own account — the walk runs to the end.
pub fn run_walk(entries: &Vec<WalkEntry>, force: bool) -> (r: (Vec<EntryOutcome>, Option<
    FailureKind,
>))
    ensures
        r.0@.len() <= entries@.len(),
        forall|k: int|
            0 <= k < r.0@.len() ==> r.0@[k] == spec_entry_outcome(entries@[k], force),
        forall|k: int| 0 <= k < r.0@.len() - 1 ==> !spec_outcome_fatal(r.0@[k]),
        r.1 is None ==> r.0@.len() == entries@.len() && (forall|k: int|
            0 <= k < r.0@.len() ==> !spec_outcome_fatal(r.0@[k])),
        r.1 is Some ==> r.0@.len() > 0 && r.0@.last() == EntryOutcome::Failed(r.1->0)
            && spec_outcome_fatal(r.0@.last()),
        (forall|k: int|
            0 <= k < entries@.len() ==> !spec_outcome_fatal(
                #[trigger] spec_entry_outcome(entries@[k], force),
            )) ==> r.1 is None,
{
    let n = entries.len();
    let mut outcomes: Vec<EntryOutcome> = Vec::new();
    let mut i: usize = 0;
    while i < n
        invariant
            n == entries@.len(),
            i <= n,
            outcomes@.len() == i,
            forall|k: int|
                0 <= k < i ==> outcomes@[k] == spec_entry_outcome(entries@[k], force),
            forall|k: int| 0 <= k < i ==> !spec_outcome_fatal(outcomes@[k]),
        decreases n - i,
    {
        let o = entry_outcome(&entries[i], force);
        let fatal = outcome_fatal(&o);
        outcomes.push(o);
        if fatal {
            return (outcomes, Some(FailureKind::Io));
        }
        i = i + 1;
    }
    (outcomes, None)
}

/// Idempotency of re-runs: once an entry's output exists, a pass without
/// `force` passes it over — no write, no error, whatever the pipeline
/// would have reported.
pub proof fn lemma_rerun_is_skipped(e: WalkEntry)
    requires
        e.output_exists,
    ensures
        spec_entry_outcome(e, false) == EntryOutcome::Skipped,
{
}

/// Idempotency across whole runs: take one entry as two forceless passes
/// observe it, where the second pass sees the output the first pass wrote
/// (or found). If the first pass wrote or skipped the entry, the second
/// pass skips it — no second write, no error. Only entries whose first
/// pass failed are tried again.
pub proof fn lemma_second_pass_writes_nothing(first: WalkEntry, second: WalkEntry)
    requires
        second.is_dir == first.is_dir,
        second.output_exists == (first.output_exists || spec_entry_outcome(first, false)
            == EntryOutcome::Written),
        !(spec_entry_outcome(first, false) is Failed),
    ensures
        spec_entry_outcome(second, false) == EntryOutcome::Skipped,
{
}

/// Failure isolation: an entry whose tags cannot be read — or that fails
/// in any other per-file way — never yields a fatal outcome, so it never
/// keeps the walk from processing the entries after it.
pub proof fn lemma_per_file_failure_not_fatal(e: WalkEntry, force: bool, k: FailureKind)
    requires
        e.result == PipelineResult::Failure(k),
        k != FailureKind::Io,
    ensures
        !spec_outcome_fatal(spec_entry_outcome(e, force)),
{
}

} // verus!
