use vstd::prelude::*;
use crate::config::{EntryKind, PathState};
use crate::error::ExplodeError;
use crate::session::{
    Action,
    Event,
    Exploder,
    Phase,
    RenameOutcome,
    Step,
    exploded_note,
    notes_are,
    outcome,
};

verus! {

/// In a dry run no step ever asks for an action that changes the filesystem.
pub proof fn lemma_dry_run_never_mutates(s: Exploder, e: Event, t: Exploder, r: Step)
    requires
        s.wf(),
        s.expects(e),
        s.config.dry_run,
        Exploder::transition(s, e, t, r),
    ensures
        !r.action.is_mutating(),
{
}

/// In a dry run the session fails only on a precondition, on a conflict
/// without overwriting, or when listing the source fails: a step that sees
/// none of these never ends in an error.
pub proof fn lemma_dry_run_succeeds(s: Exploder, e: Event, t: Exploder, r: Step)
    requires
        s.wf(),
        s.expects(e),
        s.config.dry_run,
        Exploder::transition(s, e, t, r),
        !(e is IoFailed),
        e matches Event::Probed { source, destination } ==> source == PathState::Directory
            && destination != PathState::Other,
        e matches Event::Inspected { target_exists, .. } ==> !target_exists || s.config.force,
    ensures
        !(outcome(r) matches Some(Err(_))),
{
}

/// An entry whose name is taken in the destination, without overwriting,
/// stops the session with the error "<Kind> <name> already exists in
/// <destination>", where the kind is that of the source entry. The entry
/// itself is left where it is.
pub proof fn lemma_conflict_without_force_fails(
    s: Exploder,
    i: usize,
    kind: EntryKind,
    t: Exploder,
    r: Step,
)
    requires
        s.wf(),
        s.phase == (Phase::Inspecting { index: i }),
        !s.config.force,
        Exploder::transition(s, Event::Inspected { kind, target_exists: true }, t, r),
    ensures
        !r.action.is_mutating(),
        t.phase == Phase::Finished,
        match outcome(r) {
            Some(Err(err)) => err.message_spec() == kind.label_spec() + " "@ + s.names[i as int]@
                + " already exists in "@ + s.config.destination@,
            _ => false,
        },
{
}

/// With overwriting allowed, an entry whose name is taken in the destination
/// is transferred like any other: renamed onto its destination path, or only
/// announced in a dry run.
pub proof fn lemma_conflict_with_force_proceeds(
    s: Exploder,
    i: usize,
    kind: EntryKind,
    t: Exploder,
    r: Step,
)
    requires
        s.wf(),
        s.phase == (Phase::Inspecting { index: i }),
        s.config.force,
        Exploder::transition(s, Event::Inspected { kind, target_exists: true }, t, r),
    ensures
        !(outcome(r) matches Some(Err(_))),
        !s.config.dry_run ==> r.action == (Action::Rename { index: i }),
{
}

/// A plain file whose rename crosses devices is copied, then deleted; once
/// both succeed the session stands exactly where a successful rename would
/// have left it, with the same next action and the same lines, and no error.
pub proof fn lemma_cross_device_file_is_moved(
    s: Exploder,
    i: usize,
    s1: Exploder,
    r1: Step,
    s2: Exploder,
    r2: Step,
    s3: Exploder,
    r3: Step,
    m: Exploder,
    rm: Step,
)
    requires
        s.wf(),
        s.phase == (Phase::Renaming { index: i }),
        s.kind != EntryKind::Dir,
        Exploder::transition(s, Event::Renamed { outcome: RenameOutcome::CrossDevice }, s1, r1),
        Exploder::transition(s1, Event::Completed, s2, r2),
        Exploder::transition(s2, Event::Completed, s3, r3),
        Exploder::transition(s, Event::Renamed { outcome: RenameOutcome::Moved }, m, rm),
    ensures
        r1.action == (Action::CopyFile { index: i }),
        r2.action == (Action::RemoveFile { index: i }),
        s3.phase == m.phase,
        s3.config == m.config,
        s3.names == m.names,
        r3.action == rm.action,
        r3.notes@.len() == rm.notes@.len(),
        forall|k: int| 0 <= k < r3.notes@.len() ==> #[trigger] r3.notes@[k]@ == rm.notes@[k]@,
        !(outcome(r3) matches Some(Err(_))),
{
}

/// A missing source stops the session at its first check, before anything
/// is created, with the error "Source path <source> does not exist"; two
/// sessions with the same configuration fail with the same error.
pub proof fn lemma_missing_source_fails_alike(
    s: Exploder,
    d1: PathState,
    t: Exploder,
    r: Step,
    s2: Exploder,
    d2: PathState,
    t2: Exploder,
    r2: Step,
)
    requires
        s.phase == Phase::Probing,
        s2.phase == Phase::Probing,
        s2.config == s.config,
        Exploder::transition(s, Event::Probed { source: PathState::Missing, destination: d1 }, t, r),
        Exploder::transition(s2, Event::Probed { source: PathState::Missing, destination: d2 }, t2, r2),
    ensures
        !r.action.is_mutating(),
        t.phase == Phase::Finished,
        outcome(r) == Some(Err::<(), ExplodeError>(ExplodeError::SourceNotFound { source: s.config.source })),
        outcome(r2) == outcome(r),
        match outcome(r) {
            Some(Err(err)) => err.message_spec() == "Source path "@ + s.config.source@ + " does not exist"@,
            _ => false,
        },
{
}

/// Without a dry run, an entry whose name is free in the destination is
/// renamed onto its destination path; once renamed, the session goes on with
/// the next entry, and asks to remove the source only after the last one.
pub proof fn lemma_free_entry_is_renamed(
    s: Exploder,
    i: usize,
    kind: EntryKind,
    s1: Exploder,
    r1: Step,
    s2: Exploder,
    r2: Step,
)
    requires
        s.wf(),
        s.phase == (Phase::Inspecting { index: i }),
        !s.config.dry_run,
        Exploder::transition(s, Event::Inspected { kind, target_exists: false }, s1, r1),
        Exploder::transition(s1, Event::Renamed { outcome: RenameOutcome::Moved }, s2, r2),
    ensures
        r1.action == (Action::Rename { index: i }),
        s2.names == s.names,
        i + 1 < s.names.len() ==> r2.action == (Action::Inspect { index: (i + 1) as usize }),
        i + 1 == s.names.len() ==> r2.action == Action::RemoveSource,
{
}

/// Once the source is removed the session succeeds with the summary line
/// "Exploded <source> to <destination>".
pub proof fn lemma_removal_completes(s: Exploder, t: Exploder, r: Step)
    requires
        s.phase == Phase::RemovingSource,
        Exploder::transition(s, Event::Completed, t, r),
    ensures
        t.phase == Phase::Finished,
        outcome(r) == Some(Ok::<(), ExplodeError>(())),
        notes_are(r.notes@, seq![exploded_note(s.config)]),
{
}

} // verus!
