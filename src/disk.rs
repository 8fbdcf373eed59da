//! A model of the source and destination directories, and the law that a
//! session, answered truthfully by such a disk, moves every entry over
//! unchanged.
use vstd::prelude::*;
use crate::config::{EntryKind, PathState};
use crate::error::ExplodeError;
use crate::session::{Event, Exploder, Phase, RenameOutcome, Step, outcome};

verus! {

/// The direct children of a directory, by name: each entry's kind and
/// content (for a directory, its whole tree).
pub type Entries = Map<Seq<char>, (EntryKind, Seq<u8>)>;

/// The source and destination directories; `None` where the path is missing.
pub type Disk = (Option<Entries>, Option<Entries>);

/// What probing a directory of the model finds.
pub open spec fn state_of(dir: Option<Entries>) -> PathState {
    match dir {
        Some(_) => PathState::Directory,
        None => PathState::Missing,
    }
}

/// What a destination holds before the session, if anything.
pub open spec fn entries_of(dir: Option<Entries>) -> Entries {
    match dir {
        Some(m) => m,
        None => Map::empty(),
    }
}

/// The names of the first `i` entries of a listing.
pub open spec fn moved(names: Seq<String>, i: int) -> Set<Seq<char>> {
    Set::new(|x: Seq<char>| exists|k: int| 0 <= k < i && #[trigger] names[k]@ == x)
}

/// `names` lists each entry of `src` exactly once.
pub open spec fn lists(names: Seq<String>, src: Entries) -> bool {
    &&& forall|a: int, b: int| 0 <= a < b < names.len() ==> names[a]@ != names[b]@
    &&& forall|x: Seq<char>| src.dom().contains(x) <==> #[trigger] moved(names, names.len() as int).contains(x)
}

/// The disk goes from `d` to `d2` when it performs the action that `s` waits
/// on, and `e` tells truthfully what happened. Renames stay on one device.
pub open spec fn performs(s: Exploder, d: Disk, e: Event, d2: Disk) -> bool {
    match s.phase {
        Phase::Ready => e is Started && d2 == d,
        Phase::Probing => {
            &&& e == (Event::Probed { source: state_of(d.0), destination: state_of(d.1) })
            &&& d2 == d
        },
        Phase::Creating => d.1 is None && e is Completed && d2 == (d.0, Some(Map::<Seq<char>, (EntryKind, Seq<u8>)>::empty())),
        Phase::Listing => {
            &&& d.0 is Some
            &&& e matches Event::Listed { names } && lists(names@, d.0->0)
            &&& d2 == d
        },
        Phase::Inspecting { index } => {
            let n = s.names[index as int]@;
            &&& d.0 is Some
            &&& d.1 is Some
            &&& d.0->0.dom().contains(n)
            &&& e == (Event::Inspected { kind: d.0->0[n].0, target_exists: d.1->0.dom().contains(n) })
            &&& d2 == d
        },
        Phase::Renaming { index } => {
            let n = s.names[index as int]@;
            &&& d.0 is Some
            &&& d.1 is Some
            &&& e == (Event::Renamed { outcome: RenameOutcome::Moved })
            &&& d2 == (Some(d.0->0.remove(n)), Some(d.1->0.insert(n, d.0->0[n])))
        },
        Phase::RemovingSource => {
            &&& d.0 is Some
            &&& if d.0->0.dom().is_empty() {
                e is Completed && d2 == (None::<Entries>, d.1)
            } else {
                e is IoFailed && d2 == d
            }
        },
        _ => false,
    }
}

/// How the disk stands, at each phase of a session that started on a source
/// `src0` and a destination `dst0`: the first entries of the listing have
/// left the source for the destination, and nothing else has changed.
pub open spec fn consistent(s: Exploder, src0: Entries, dst0: Option<Entries>, d: Disk) -> bool {
    let base = entries_of(dst0);
    match s.phase {
        Phase::Ready => d == (Some(src0), dst0),
        Phase::Probing => d == (Some(src0), dst0),
        Phase::Creating => dst0 is None && d == (Some(src0), dst0),
        Phase::Listing => d == (Some(src0), Some(base)),
        Phase::Inspecting { index } => {
            &&& lists(s.names@, src0)
            &&& d == (
                Some(src0.remove_keys(moved(s.names@, index as int))),
                Some(base.union_prefer_right(src0.restrict(moved(s.names@, index as int)))),
            )
        },
        Phase::Renaming { index } => {
            &&& lists(s.names@, src0)
            &&& d == (
                Some(src0.remove_keys(moved(s.names@, index as int))),
                Some(base.union_prefer_right(src0.restrict(moved(s.names@, index as int)))),
            )
        },
        Phase::RemovingSource => d == (
            Some(Map::<Seq<char>, (EntryKind, Seq<u8>)>::empty()),
            Some(base.union_prefer_right(src0)),
        ),
        Phase::Finished => true,
        _ => false,
    }
}

proof fn lemma_moved_next(names: Seq<String>, i: int)
    requires
        0 <= i < names.len(),
    ensures
        moved(names, i + 1) == moved(names, i).insert(names[i]@),
{
    assert forall|x: Seq<char>| #[trigger] moved(names, i + 1).contains(x) implies moved(names, i).insert(names[i]@).contains(x) by {
        let k = choose|k: int| 0 <= k < i + 1 && #[trigger] names[k]@ == x;
        if k < i {
            assert(moved(names, i).contains(x));
        }
    }
    assert forall|x: Seq<char>| #[trigger] moved(names, i).insert(names[i]@).contains(x) implies moved(names, i + 1).contains(x) by {
        if x == names[i]@ {
            assert(names[i]@ == x);
        } else {
            let k = choose|k: int| 0 <= k < i && #[trigger] names[k]@ == x;
            assert(names[k]@ == x);
        }
    }
    assert(moved(names, i + 1) =~= moved(names, i).insert(names[i]@));
}

proof fn lemma_not_yet_moved(names: Seq<String>, i: int)
    requires
        0 <= i < names.len(),
        forall|a: int, b: int| 0 <= a < b < names.len() ==> names[a]@ != names[b]@,
    ensures
        !moved(names, i).contains(names[i]@),
{
    if moved(names, i).contains(names[i]@) {
        let k = choose|k: int| 0 <= k < i && #[trigger] names[k]@ == names[i]@;
        assert(names[k]@ != names[i]@);
    }
}

proof fn lemma_listed(names: Seq<String>, i: int, src0: Entries)
    requires
        0 <= i < names.len(),
        lists(names, src0),
    ensures
        src0.dom().contains(names[i]@),
{
    assert(moved(names, names.len() as int).contains(names[i]@));
}

/// The entries of `src0` reach the destination in listing order: once `j`
/// of them have moved, the source holds the others and the destination holds
/// them over what it had.
proof fn lemma_after_moves(names: Seq<String>, j: int, src0: Entries, base: Entries)
    requires
        0 <= j <= names.len(),
        lists(names, src0),
    ensures
        j == names.len() ==> src0.remove_keys(moved(names, j)) == Map::<Seq<char>, (EntryKind, Seq<u8>)>::empty(),
        j == names.len() ==> base.union_prefer_right(src0.restrict(moved(names, j))) == base.union_prefer_right(src0),
        j == 0 ==> src0.remove_keys(moved(names, j)) == src0,
        j == 0 ==> base.union_prefer_right(src0.restrict(moved(names, j))) == base,
{
    if j == names.len() {
        assert(src0.remove_keys(moved(names, j)) =~= Map::<Seq<char>, (EntryKind, Seq<u8>)>::empty());
        assert(src0.restrict(moved(names, j)) =~= src0);
    }
    if j == 0 {
        assert(src0.remove_keys(moved(names, j)) =~= src0);
        assert(base.union_prefer_right(src0.restrict(moved(names, j))) =~= base);
    }
}

/// A non-dry session on a source directory `src0`, answered truthfully by
/// the disk, keeps the disk `consistent` at every step. When it succeeds, the
/// source is gone and the destination holds its former entries together
/// with every entry of the source, content unchanged; a source entry
/// replaces a destination entry of the same name only with overwriting
/// allowed. Where no name is shared, or overwriting is allowed, it does not
/// fail. When it fails on a name already taken, the disk is left as it was:
/// the source still holds the entry and the destination still holds its own.
pub proof fn lemma_session_keeps_disk(
    s: Exploder,
    e: Event,
    t: Exploder,
    r: Step,
    src0: Entries,
    dst0: Option<Entries>,
    d: Disk,
    d2: Disk,
)
    requires
        s.wf(),
        s.expects(e),
        !s.config.dry_run,
        consistent(s, src0, dst0, d),
        performs(s, d, e, d2),
        Exploder::transition(s, e, t, r),
    ensures
        t.phase != Phase::Finished ==> consistent(t, src0, dst0, d2),
        outcome(r) == Some(Ok::<(), ExplodeError>(())) ==> d2 == (
            None::<Entries>,
            Some(entries_of(dst0).union_prefer_right(src0)),
        ),
        s.config.force || (forall|x: Seq<char>| src0.dom().contains(x) ==> !entries_of(dst0).dom().contains(x))
            ==> !(outcome(r) matches Some(Err(_))),
        outcome(r) matches Some(Err(ExplodeError::AlreadyExists { name, .. })) ==> {
            &&& d2 == d
            &&& d2.0->0[name@] == src0[name@]
            &&& d2.1->0[name@] == entries_of(dst0)[name@]
        },
{
    let base = entries_of(dst0);
    match s.phase {
        Phase::Listing => {
            if let Event::Listed { names } = e {
                lemma_after_moves(names@, 0, src0, base);
                lemma_after_moves(names@, names@.len() as int, src0, base);
            }
        },
        Phase::Inspecting { index } => {
            let names = s.names@;
            let n = names[index as int]@;
            lemma_not_yet_moved(names, index as int);
            lemma_listed(names, index as int, src0);
            assert(src0.remove_keys(moved(names, index as int)).dom().contains(n));
            assert(d.1->0.dom().contains(n) == base.dom().contains(n));
        },
        Phase::Renaming { index } => {
            let names = s.names@;
            let i = index as int;
            let n = names[i]@;
            lemma_not_yet_moved(names, i);
            lemma_listed(names, i, src0);
            lemma_moved_next(names, i);
            let src = src0.remove_keys(moved(names, i));
            let dst = base.union_prefer_right(src0.restrict(moved(names, i)));
            assert(src.remove(n) =~= src0.remove_keys(moved(names, i + 1)));
            assert(dst.insert(n, src[n]) =~= base.union_prefer_right(src0.restrict(moved(names, i + 1))));
            lemma_after_moves(names, names.len() as int, src0, base);
        },
        _ => {},
    }
}

} // verus!
