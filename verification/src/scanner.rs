//! Scan roots and the scanner's root-handling decisions.
//!
//! Each user-supplied root is probed once; an inaccessible root yields one
//! error event and is skipped, while every other root is still walked. No
//! root's failure blocks another.

use vstd::prelude::*;

use crate::errors::AppError;
use crate::events::StatusEvent;

verus! {

/// A user-supplied scan root: the argument as the user wrote it, and the
/// directory path it names.
#[derive(Debug)]
pub struct ScanRoot {
    pub argument: String,
    pub path: String,
}

/// What probing a root's metadata found: an accessible directory,
/// something that is not a directory, or no access at all.
#[derive(Debug)]
pub enum RootStatus {
    Directory,
    NotDirectory,
    AccessError(String),
}

/// The validated argument set the pipeline runs on.
#[derive(Debug)]
pub struct Arguments {
    pub directories: Vec<ScanRoot>,
    pub aggresive: bool,
}

/// The error event owed for a root with the given status, if any.
pub open spec fn root_event(root: ScanRoot, status: RootStatus) -> Option<StatusEvent> {
    match status {
        RootStatus::Directory => None,
        RootStatus::NotDirectory => Some(
            StatusEvent::Error(
                AppError::NotDirectory { argument: root.argument, directory: root.path },
            ),
        ),
        RootStatus::AccessError(source) => Some(
            StatusEvent::Error(
                AppError::DirectoryAccess { source: source, directory: root.path },
            ),
        ),
    }
}

/// The roots that will be walked: those whose probe found a directory,
/// in their given order.
pub open spec fn accessible_roots(roots: Seq<ScanRoot>, statuses: Seq<RootStatus>)
    -> Seq<ScanRoot>
    decreases roots.len(),
{
    if roots.len() == 0 {
        Seq::empty()
    } else if statuses[0] is Directory {
        seq![roots[0]] + accessible_roots(roots.drop_first(), statuses.drop_first())
    } else {
        accessible_roots(roots.drop_first(), statuses.drop_first())
    }
}

/// The error events owed for the roots that will not be walked, in the
/// roots' given order.
pub open spec fn root_error_events(roots: Seq<ScanRoot>, statuses: Seq<RootStatus>)
    -> Seq<StatusEvent>
    decreases roots.len(),
{
    if roots.len() == 0 {
        Seq::empty()
    } else {
        let rest = root_error_events(roots.drop_first(), statuses.drop_first());
        match root_event(roots[0], statuses[0]) {
            Some(e) => seq![e] + rest,
            None => rest,
        }
    }
}

/// Splits the probed roots into those to walk and the error events owed
/// for the rest. Consumes the roots so the kept ones cross unchanged.
pub fn partition_roots(roots: Vec<ScanRoot>, statuses: &Vec<RootStatus>) -> (r: (
    Vec<ScanRoot>,
    Vec<StatusEvent>,
))
    requires
        roots@.len() == statuses@.len(),
    ensures
        r.0@ == accessible_roots(roots@, statuses@),
        r.1@ == root_error_events(roots@, statuses@),
{
    let ghost orig_roots = roots@;
    let ghost orig_statuses = statuses@;
    let mut roots = roots;
    let mut walk: Vec<ScanRoot> = Vec::new();
    let mut events: Vec<StatusEvent> = Vec::new();
    let mut i: usize = 0;
    let total: usize = roots.len();
    proof {
        assert(orig_roots.len() == total);
        assert(roots@ =~= orig_roots.subrange(0, orig_roots.len() as int));
        assert(orig_statuses.subrange(0, orig_statuses.len() as int) =~= orig_statuses);
        assert(walk@ + accessible_roots(orig_roots, orig_statuses) =~= accessible_roots(
            orig_roots,
            orig_statuses,
        ));
        assert(events@ + root_error_events(orig_roots, orig_statuses) =~= root_error_events(
            orig_roots,
            orig_statuses,
        ));
    }
    while roots.len() > 0
        invariant
            statuses@ == orig_statuses,
            orig_statuses.len() == orig_roots.len(),
            orig_roots.len() <= usize::MAX,
            i <= orig_roots.len(),
            roots@ == orig_roots.subrange(i as int, orig_roots.len() as int),
            walk@ + accessible_roots(roots@, orig_statuses.subrange(i as int, orig_statuses.len() as int))
                == accessible_roots(orig_roots, orig_statuses),
            events@ + root_error_events(roots@, orig_statuses.subrange(i as int, orig_statuses.len() as int))
                == root_error_events(orig_roots, orig_statuses),
        decreases roots@.len(),
    {
        let root = roots.remove(0);
        match &statuses[i] {
            RootStatus::Directory => {
                walk.push(root);
            },
            RootStatus::NotDirectory => {
                let ScanRoot { argument, path } = root;
                events.push(
                    StatusEvent::Error(AppError::NotDirectory { argument, directory: path }),
                );
            },
            RootStatus::AccessError(source) => {
                let ScanRoot { argument: _, path } = root;
                events.push(
                    StatusEvent::Error(
                        AppError::DirectoryAccess { source: source.clone(), directory: path },
                    ),
                );
            },
        }
        i += 1;
        proof {
            assert(roots@ =~= orig_roots.subrange(i as int, orig_roots.len() as int));
            let tail_roots = orig_roots.subrange(i - 1, orig_roots.len() as int);
            let tail_statuses = orig_statuses.subrange(i - 1, orig_statuses.len() as int);
            assert(tail_roots.drop_first() =~= orig_roots.subrange(
                i as int,
                orig_roots.len() as int,
            ));
            assert(tail_statuses.drop_first() =~= orig_statuses.subrange(
                i as int,
                orig_statuses.len() as int,
            ));
            assert(walk@ + accessible_roots(
                roots@,
                orig_statuses.subrange(i as int, orig_statuses.len() as int),
            ) =~= accessible_roots(orig_roots, orig_statuses));
            assert(events@ + root_error_events(
                roots@,
                orig_statuses.subrange(i as int, orig_statuses.len() as int),
            ) =~= root_error_events(orig_roots, orig_statuses));
        }
    }
    proof {
        assert(walk@ =~= accessible_roots(orig_roots, orig_statuses));
        assert(events@ =~= root_error_events(orig_roots, orig_statuses));
    }
    (walk, events)
}

/// Fault isolation: where exactly one root among many is inaccessible, all
/// other roots are still walked, in order, and exactly one error event is
/// owed, for the bad root alone.
pub proof fn lemma_root_fault_isolation(roots: Seq<ScanRoot>, statuses: Seq<RootStatus>, b: int)
    requires
        roots.len() == statuses.len(),
        0 <= b < roots.len(),
        !(statuses[b] is Directory),
        forall|j: int| 0 <= j < statuses.len() && j != b ==> statuses[j] is Directory,
    ensures
        accessible_roots(roots, statuses) == roots.remove(b),
        root_error_events(roots, statuses).len() == 1,
        root_error_events(roots, statuses)[0] == root_event(roots[b], statuses[b]).unwrap(),
    decreases roots.len(),
{
    if b == 0 {
        assert(forall|j: int|
            0 <= j < statuses.drop_first().len() ==> statuses.drop_first()[j]
                == #[trigger] statuses[j + 1]);
        lemma_all_accessible(roots.drop_first(), statuses.drop_first());
        assert(accessible_roots(roots, statuses) =~= roots.remove(0));
    } else {
        assert(forall|j: int|
            0 <= j < statuses.drop_first().len() ==> statuses.drop_first()[j]
                == #[trigger] statuses[j + 1]);
        lemma_root_fault_isolation(roots.drop_first(), statuses.drop_first(), b - 1);
        assert(roots.drop_first().remove(b - 1) =~= roots.remove(b).drop_first());
        assert(accessible_roots(roots, statuses) =~= roots.remove(b));
    }
}

/// Where every root is accessible, all are walked and no event is owed.
pub proof fn lemma_all_accessible(roots: Seq<ScanRoot>, statuses: Seq<RootStatus>)
    requires
        roots.len() == statuses.len(),
        forall|j: int| 0 <= j < statuses.len() ==> statuses[j] is Directory,
    ensures
        accessible_roots(roots, statuses) == roots,
        root_error_events(roots, statuses) == Seq::<StatusEvent>::empty(),
    decreases roots.len(),
{
    if roots.len() > 0 {
        assert(forall|j: int|
            0 <= j < statuses.drop_first().len() ==> statuses.drop_first()[j]
                == #[trigger] statuses[j + 1]);
        lemma_all_accessible(roots.drop_first(), statuses.drop_first());
        assert(accessible_roots(roots, statuses) =~= roots);
    }
}

} // verus!
