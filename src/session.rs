use vstd::prelude::*;
use crate::config::{Config, EntryKind, PathState};
use crate::error::ExplodeError;
use crate::paths::{join_path, joined};

verus! {

/// How an attempt to rename an entry into the destination ended.
#[derive(Debug)]
pub enum RenameOutcome {
    /// The entry was renamed.
    Moved,
    /// The rename was refused because the two paths lie on different devices.
    CrossDevice,
    /// The rename failed for another reason.
    Failed { reason: String },
}

/// What the caller observed when it performed the last action.
#[derive(Debug)]
pub enum Event {
    /// The caller is ready; the first event of every session.
    Started,
    /// The answer to `Action::Probe`.
    Probed { source: PathState, destination: PathState },
    /// The answer to `Action::ListSource`: the names of the source's direct
    /// children, in listing order.
    Listed { names: Vec<String> },
    /// The answer to `Action::Inspect`: the kind of the source entry and
    /// whether its destination path already exists.
    Inspected { kind: EntryKind, target_exists: bool },
    /// The answer to `Action::Rename`.
    Renamed { outcome: RenameOutcome },
    /// The last action succeeded.
    Completed,
    /// The last action failed with the given I/O error.
    IoFailed { reason: String },
}

/// The next thing the caller does. Entries are designated by their index in
/// the listing.
#[derive(Debug)]
pub enum Action {
    /// Find out what the source and destination paths are.
    Probe,
    /// Create the destination directory.
    CreateDestination,
    /// List the direct children of the source directory.
    ListSource,
    /// Classify a source entry and check whether its destination path exists.
    Inspect { index: usize },
    /// Rename a source entry to its destination path.
    Rename { index: usize },
    /// Create the entry's destination directory and copy the directory's
    /// contents into it, overwriting existing contents only if allowed. The
    /// source tree is left in place, so the final removal of the source then
    /// fails and reports it: nothing is deleted that was not moved by a
    /// rename or copied as a single file.
    CopyDirectory { index: usize, overwrite: bool },
    /// Copy a plain file to its destination path.
    CopyFile { index: usize },
    /// Delete a source file that was copied.
    RemoveFile { index: usize },
    /// Remove the source directory.
    RemoveSource,
    /// Stop; the explosion ended with the given result.
    Finish { result: Result<(), ExplodeError> },
}

impl Action {
    /// Whether performing the action changes the filesystem.
    pub open spec fn is_mutating(&self) -> bool {
        match self {
            Action::CreateDestination => true,
            Action::Rename { .. } => true,
            Action::CopyDirectory { .. } => true,
            Action::CopyFile { .. } => true,
            Action::RemoveFile { .. } => true,
            Action::RemoveSource => true,
            _ => false,
        }
    }
}

/// The progress lines to show, then the action to perform.
#[derive(Debug)]
pub struct Step {
    pub notes: Vec<String>,
    pub action: Action,
}

/// Where a session stands: which event it waits for.
#[derive(Clone, Copy, Debug, PartialEq, Eq, Structural)]
pub enum Phase {
    Ready,
    Probing,
    Creating,
    Listing,
    Inspecting { index: usize },
    Renaming { index: usize },
    CopyingDirectory { index: usize },
    CopyingFile { index: usize },
    RemovingFile { index: usize },
    RemovingSource,
    Finished,
}

/// One explosion of `config.source` into `config.destination`.
#[derive(Debug)]
pub struct Exploder {
    pub config: Config,
    pub phase: Phase,
    /// The source's children, once listed.
    pub names: Vec<String>,
    /// The kind of the entry being transferred.
    pub kind: EntryKind,
}

/// Whether the strings `v` read as the texts `w`.
pub open spec fn notes_are(v: Seq<String>, w: Seq<Seq<char>>) -> bool {
    &&& v.len() == w.len()
    &&& forall|k: int| 0 <= k < v.len() ==> #[trigger] v[k]@ == w[k]
}

/// The line announcing the whole move.
pub open spec fn moving_files_note(c: Config) -> Seq<char> {
    "Moving files in "@ + c.source@ + " -> "@ + c.destination@
}

/// The line announcing the move of the entry called `name`.
pub open spec fn moving_note(c: Config, name: Seq<char>) -> Seq<char> {
    "Moving "@ + joined(c.source@, name) + " -> "@ + joined(c.destination@, name)
}

/// The line announcing the removal of the source.
pub open spec fn removed_note(c: Config) -> Seq<char> {
    "Removed "@ + c.source@
}

/// The summary line of a successful explosion.
pub open spec fn exploded_note(c: Config) -> Seq<char> {
    "Exploded "@ + c.source@ + " to "@ + c.destination@
}

/// The line `n`, if progress lines are wanted.
pub open spec fn when_verbose(c: Config, n: Seq<char>) -> Seq<Seq<char>> {
    if c.verbose {
        seq![n]
    } else {
        seq![]
    }
}

/// The result that a step ends the session with, if it does.
pub open spec fn outcome(r: Step) -> Option<Result<(), ExplodeError>> {
    match r.action {
        Action::Finish { result } => Some(result),
        _ => None,
    }
}

/// Whether `e` is the error of a failed transfer of the entry called `name`.
pub open spec fn is_transfer_error(c: Config, name: Seq<char>, e: ExplodeError, reason: String) -> bool {
    match e {
        ExplodeError::Transfer { from, to, reason: r } => {
            &&& from@ == joined(c.source@, name)
            &&& to@ == joined(c.destination@, name)
            &&& r == reason
        },
        _ => false,
    }
}

impl Exploder {
    pub open spec fn wf(&self) -> bool {
        &&& self.config.dry_run ==> self.phase is Ready || self.phase is Probing
            || self.phase is Listing || self.phase is Inspecting || self.phase is Finished
        &&& match self.phase {
            Phase::Inspecting { index } => index < self.names.len(),
            Phase::Renaming { index } => index < self.names.len(),
            Phase::CopyingDirectory { index } => index < self.names.len(),
            Phase::CopyingFile { index } => index < self.names.len(),
            Phase::RemovingFile { index } => index < self.names.len(),
            _ => true,
        }
    }

    /// Whether the session waits for an event of the kind of `e`.
    pub open spec fn expects(&self, e: Event) -> bool {
        match self.phase {
            Phase::Ready => e is Started,
            Phase::Probing => e is Probed,
            Phase::Listing => e is Listed || e is IoFailed,
            Phase::Inspecting { .. } => e is Inspected,
            Phase::Renaming { .. } => e is Renamed,
            Phase::Finished => false,
            _ => e is Completed || e is IoFailed,
        }
    }

    /// `t` is `s` in phase `p`, with nothing else changed.
    pub open spec fn moved_to(s: Exploder, t: Exploder, p: Phase) -> bool {
        &&& t.config == s.config
        &&& t.names == s.names
        &&& t.kind == s.kind
        &&& t.phase == p
    }

    /// `s` stops with error `err` and shows nothing more.
    pub open spec fn fails_with(s: Exploder, t: Exploder, r: Step, err: ExplodeError) -> bool {
        &&& Self::moved_to(s, t, Phase::Finished)
        &&& r.notes@.len() == 0
        &&& outcome(r) == Some(Err::<(), ExplodeError>(err))
    }

    /// After the lines `pre`, the session goes on with entry `j` of its
    /// listing `t.names`, or with the removal of the source once all entries
    /// are done. In a dry run the source is kept and the session succeeds.
    pub open spec fn goes_on(c: Config, j: int, pre: Seq<Seq<char>>, t: Exploder, r: Step) -> bool {
        &&& t.config == c
        &&& if j < t.names.len() {
            &&& t.phase == (Phase::Inspecting { index: j as usize })
            &&& r.action == (Action::Inspect { index: j as usize })
            &&& notes_are(r.notes@, pre)
        } else if c.dry_run {
            &&& t.phase == Phase::Finished
            &&& r.action == (Action::Finish { result: Ok(()) })
            &&& notes_are(r.notes@, pre + when_verbose(c, removed_note(c)) + seq![exploded_note(c)])
        } else {
            &&& t.phase == Phase::RemovingSource
            &&& r.action == Action::RemoveSource
            &&& notes_are(r.notes@, pre + when_verbose(c, removed_note(c)))
        }
    }

    /// The transfer of entry `i` failed with `reason`.
    pub open spec fn transfer_fails(s: Exploder, i: int, reason: String, t: Exploder, r: Step) -> bool {
        &&& Self::moved_to(s, t, Phase::Finished)
        &&& r.notes@.len() == 0
        &&& match outcome(r) {
            Some(Err(e)) => is_transfer_error(s.config, s.names[i]@, e, reason),
            _ => false,
        }
    }

    /// Session `s`, handed `e`, becomes `t` and asks for step `r`.
    pub open spec fn transition(s: Exploder, e: Event, t: Exploder, r: Step) -> bool {
        let c = s.config;
        match s.phase {
            Phase::Ready => {
                &&& Self::moved_to(s, t, Phase::Probing)
                &&& r.action == Action::Probe
                &&& notes_are(r.notes@, when_verbose(c, moving_files_note(c)))
            },
            Phase::Probing => match e {
                Event::Probed { source, destination } => match source {
                    PathState::Missing => Self::fails_with(
                        s,
                        t,
                        r,
                        ExplodeError::SourceNotFound { source: c.source },
                    ),
                    PathState::Other => Self::fails_with(
                        s,
                        t,
                        r,
                        ExplodeError::SourceNotADirectory { source: c.source },
                    ),
                    PathState::Directory => match destination {
                        PathState::Other => Self::fails_with(
                            s,
                            t,
                            r,
                            ExplodeError::TargetNotADirectory { destination: c.destination },
                        ),
                        PathState::Missing if !c.dry_run => {
                            &&& Self::moved_to(s, t, Phase::Creating)
                            &&& r.action == Action::CreateDestination
                            &&& r.notes@.len() == 0
                        },
                        _ => {
                            &&& Self::moved_to(s, t, Phase::Listing)
                            &&& r.action == Action::ListSource
                            &&& r.notes@.len() == 0
                        },
                    },
                },
                _ => false,
            },
            Phase::Creating => match e {
                Event::Completed => {
                    &&& Self::moved_to(s, t, Phase::Listing)
                    &&& r.action == Action::ListSource
                    &&& r.notes@.len() == 0
                },
                Event::IoFailed { reason } => Self::fails_with(
                    s,
                    t,
                    r,
                    ExplodeError::CreateDestination { reason },
                ),
                _ => false,
            },
            Phase::Listing => match e {
                Event::Listed { names } => {
                    &&& t.names == names
                    &&& t.kind == s.kind
                    &&& Self::goes_on(c, 0, seq![], t, r)
                },
                Event::IoFailed { reason } => Self::fails_with(
                    s,
                    t,
                    r,
                    ExplodeError::ReadSource { source: c.source, reason },
                ),
                _ => false,
            },
            Phase::Inspecting { index } => match e {
                Event::Inspected { kind, target_exists } => {
                    let name = s.names[index as int];
                    if target_exists && !c.force {
                        Self::fails_with(
                            s,
                            t,
                            r,
                            ExplodeError::AlreadyExists {
                                kind,
                                name,
                                destination: c.destination,
                            },
                        )
                    } else if c.dry_run {
                        &&& t.names == s.names
                        &&& t.kind == kind
                        &&& Self::goes_on(c, index + 1, when_verbose(c, moving_note(c, name@)), t, r)
                    } else {
                        &&& t.config == c
                        &&& t.names == s.names
                        &&& t.kind == kind
                        &&& t.phase == (Phase::Renaming { index })
                        &&& r.action == (Action::Rename { index })
                        &&& notes_are(r.notes@, when_verbose(c, moving_note(c, name@)))
                    }
                },
                _ => false,
            },
            Phase::Renaming { index } => match e {
                Event::Renamed { outcome } => match outcome {
                    RenameOutcome::Moved => {
                        &&& t.names == s.names
                        &&& t.kind == s.kind
                        &&& Self::goes_on(c, index + 1, seq![], t, r)
                    },
                    RenameOutcome::CrossDevice => {
                        &&& r.notes@.len() == 0
                        &&& if s.kind == EntryKind::Dir {
                            &&& Self::moved_to(s, t, Phase::CopyingDirectory { index })
                            &&& r.action == (Action::CopyDirectory { index, overwrite: c.force })
                        } else {
                            &&& Self::moved_to(s, t, Phase::CopyingFile { index })
                            &&& r.action == (Action::CopyFile { index })
                        }
                    },
                    RenameOutcome::Failed { reason } => Self::transfer_fails(s, index as int, reason, t, r),
                },
                _ => false,
            },
            Phase::CopyingDirectory { index } => match e {
                Event::Completed => {
                    &&& t.names == s.names
                    &&& t.kind == s.kind
                    &&& Self::goes_on(c, index + 1, seq![], t, r)
                },
                Event::IoFailed { reason } => Self::transfer_fails(s, index as int, reason, t, r),
                _ => false,
            },
            Phase::CopyingFile { index } => match e {
                Event::Completed => {
                    &&& Self::moved_to(s, t, Phase::RemovingFile { index })
                    &&& r.action == (Action::RemoveFile { index })
                    &&& r.notes@.len() == 0
                },
                Event::IoFailed { reason } => Self::transfer_fails(s, index as int, reason, t, r),
                _ => false,
            },
            Phase::RemovingFile { index } => match e {
                Event::Completed => {
                    &&& t.names == s.names
                    &&& t.kind == s.kind
                    &&& Self::goes_on(c, index + 1, seq![], t, r)
                },
                Event::IoFailed { reason } => Self::transfer_fails(s, index as int, reason, t, r),
                _ => false,
            },
            Phase::RemovingSource => match e {
                Event::Completed => {
                    &&& Self::moved_to(s, t, Phase::Finished)
                    &&& r.action == (Action::Finish { result: Ok(()) })
                    &&& notes_are(r.notes@, seq![exploded_note(c)])
                },
                Event::IoFailed { reason } => Self::fails_with(
                    s,
                    t,
                    r,
                    ExplodeError::RemoveSource { source: c.source, reason },
                ),
                _ => false,
            },
            Phase::Finished => false,
        }
    }
}

fn moving_files_line(c: &Config) -> (r: String)
    ensures
        r@ == moving_files_note(*c),
{
    let mut m = String::from_str("Moving files in ");
    m.append(c.source.as_str());
    m.append(" -> ");
    m.append(c.destination.as_str());
    m
}

fn moving_line(c: &Config, name: &String) -> (r: String)
    ensures
        r@ == moving_note(*c, name@),
{
    let from = join_path(&c.source, name);
    let to = join_path(&c.destination, name);
    let mut m = String::from_str("Moving ");
    m.append(from.as_str());
    m.append(" -> ");
    m.append(to.as_str());
    m
}

fn removed_line(c: &Config) -> (r: String)
    ensures
        r@ == removed_note(*c),
{
    let mut m = String::from_str("Removed ");
    m.append(c.source.as_str());
    m
}

fn exploded_line(c: &Config) -> (r: String)
    ensures
        r@ == exploded_note(*c),
{
    let mut m = String::from_str("Exploded ");
    m.append(c.source.as_str());
    m.append(" to ");
    m.append(c.destination.as_str());
    m
}

/// The line `n` alone if `c` is verbose, else no line.
fn verbose_lines(c: &Config, n: String) -> (r: Vec<String>)
    ensures
        notes_are(r@, when_verbose(*c, n@)),
{
    let mut v: Vec<String> = Vec::new();
    if c.verbose {
        v.push(n);
    }
    v
}

impl Exploder {
    /// A session that has not started yet.
    pub fn new(config: Config) -> (r: Exploder)
        ensures
            r.config == config,
            r.phase == Phase::Ready,
            r.names@.len() == 0,
            r.wf(),
    {
        Exploder { config, phase: Phase::Ready, names: Vec::new(), kind: EntryKind::Other }
    }

    /// Whether the session waits for an event of the kind of `e`.
    pub fn accepts(&self, e: &Event) -> (r: bool)
        ensures
            r == self.expects(*e),
    {
        match self.phase {
            Phase::Ready => matches!(e, Event::Started),
            Phase::Probing => matches!(e, Event::Probed { .. }),
            Phase::Listing => matches!(e, Event::Listed { .. }) || matches!(e, Event::IoFailed { .. }),
            Phase::Inspecting { .. } => matches!(e, Event::Inspected { .. }),
            Phase::Renaming { .. } => matches!(e, Event::Renamed { .. }),
            Phase::Finished => false,
            _ => matches!(e, Event::Completed) || matches!(e, Event::IoFailed { .. }),
        }
    }

    /// Whether the session has ended.
    pub fn is_finished(&self) -> (r: bool)
        ensures
            r == (self.phase == Phase::Finished),
    {
        matches!(self.phase, Phase::Finished)
    }

    fn fail(&mut self, err: ExplodeError) -> (r: Step)
        ensures
            Self::fails_with(*old(self), *final(self), r, err),
    {
        self.phase = Phase::Finished;
        Step { notes: Vec::new(), action: Action::Finish { result: Err(err) } }
    }

    fn fail_transfer(&mut self, index: usize, reason: String) -> (r: Step)
        requires
            index < old(self).names.len(),
        ensures
            Self::transfer_fails(*old(self), index as int, reason, *final(self), r),
    {
        let from = join_path(&self.config.source, &self.names[index]);
        let to = join_path(&self.config.destination, &self.names[index]);
        self.fail(ExplodeError::Transfer { from, to, reason })
    }

    fn go_on(&mut self, j: usize, pre: Vec<String>, Ghost(w): Ghost<Seq<Seq<char>>>) -> (r: Step)
        requires
            j <= old(self).names.len(),
            notes_are(pre@, w),
        ensures
            Self::goes_on(old(self).config, j as int, w, *final(self), r),
            final(self).names == old(self).names,
            final(self).kind == old(self).kind,
            final(self).wf(),
    {
        if j < self.names.len() {
            self.phase = Phase::Inspecting { index: j };
            Step { notes: pre, action: Action::Inspect { index: j } }
        } else {
            let mut notes = pre;
            if self.config.verbose {
                notes.push(removed_line(&self.config));
            }
            let ghost w2 = w + when_verbose(self.config, removed_note(self.config));
            assert(notes_are(notes@, w2));
            if self.config.dry_run {
                notes.push(exploded_line(&self.config));
                assert(notes_are(notes@, w2 + seq![exploded_note(self.config)]));
                self.phase = Phase::Finished;
                Step { notes, action: Action::Finish { result: Ok(()) } }
            } else {
                self.phase = Phase::RemovingSource;
                Step { notes, action: Action::RemoveSource }
            }
        }
    }

    /// Hands the session what the last action observed, and returns the
    /// progress lines to show and the next action to perform.
    pub fn step(&mut self, e: Event) -> (r: Step)
        requires
            old(self).wf(),
            old(self).expects(e),
        ensures
            final(self).wf(),
            Self::transition(*old(self), e, *final(self), r),
    {
        match (self.phase, e) {
            (Phase::Ready, Event::Started) => {
                let notes = verbose_lines(&self.config, moving_files_line(&self.config));
                self.phase = Phase::Probing;
                Step { notes, action: Action::Probe }
            },
            (Phase::Probing, Event::Probed { source, destination }) => match source {
                PathState::Missing => self.fail(
                    ExplodeError::SourceNotFound { source: self.config.source.clone() },
                ),
                PathState::Other => self.fail(
                    ExplodeError::SourceNotADirectory { source: self.config.source.clone() },
                ),
                PathState::Directory => match destination {
                    PathState::Other => self.fail(
                        ExplodeError::TargetNotADirectory {
                            destination: self.config.destination.clone(),
                        },
                    ),
                    PathState::Missing if !self.config.dry_run => {
                        self.phase = Phase::Creating;
                        Step { notes: Vec::new(), action: Action::CreateDestination }
                    },
                    _ => {
                        self.phase = Phase::Listing;
                        Step { notes: Vec::new(), action: Action::ListSource }
                    },
                },
            },
            (Phase::Creating, Event::Completed) => {
                self.phase = Phase::Listing;
                Step { notes: Vec::new(), action: Action::ListSource }
            },
            (Phase::Creating, Event::IoFailed { reason }) => self.fail(
                ExplodeError::CreateDestination { reason },
            ),
            (Phase::Listing, Event::Listed { names }) => {
                self.names = names;
                self.go_on(0, Vec::new(), Ghost(Seq::empty()))
            },
            (Phase::Listing, Event::IoFailed { reason }) => self.fail(
                ExplodeError::ReadSource { source: self.config.source.clone(), reason },
            ),
            (Phase::Inspecting { index }, Event::Inspected { kind, target_exists }) => {
                if target_exists && !self.config.force {
                    let name = self.names[index].clone();
                    let destination = self.config.destination.clone();
                    self.fail(ExplodeError::AlreadyExists { kind, name, destination })
                } else {
                    let line = moving_line(&self.config, &self.names[index]);
                    let pre = verbose_lines(&self.config, line);
                    self.kind = kind;
                    if self.config.dry_run {
                        let ghost w = when_verbose(self.config, moving_note(self.config, self.names[index as int]@));
                        self.go_on(index + 1, pre, Ghost(w))
                    } else {
                        self.phase = Phase::Renaming { index };
                        Step { notes: pre, action: Action::Rename { index } }
                    }
                }
            },
            (Phase::Renaming { index }, Event::Renamed { outcome }) => match outcome {
                RenameOutcome::Moved => self.go_on(index + 1, Vec::new(), Ghost(Seq::empty())),
                RenameOutcome::CrossDevice => {
                    if matches!(self.kind, EntryKind::Dir) {
                        self.phase = Phase::CopyingDirectory { index };
                        Step {
                            notes: Vec::new(),
                            action: Action::CopyDirectory { index, overwrite: self.config.force },
                        }
                    } else {
                        self.phase = Phase::CopyingFile { index };
                        Step { notes: Vec::new(), action: Action::CopyFile { index } }
                    }
                },
                RenameOutcome::Failed { reason } => self.fail_transfer(index, reason),
            },
            (Phase::CopyingDirectory { index }, Event::Completed) => self.go_on(
                index + 1,
                Vec::new(),
                Ghost(Seq::empty()),
            ),
            (Phase::CopyingDirectory { index }, Event::IoFailed { reason }) => self.fail_transfer(
                index,
                reason,
            ),
            (Phase::CopyingFile { index }, Event::Completed) => {
                self.phase = Phase::RemovingFile { index };
                Step { notes: Vec::new(), action: Action::RemoveFile { index } }
            },
            (Phase::CopyingFile { index }, Event::IoFailed { reason }) => self.fail_transfer(
                index,
                reason,
            ),
            (Phase::RemovingFile { index }, Event::Completed) => self.go_on(
                index + 1,
                Vec::new(),
                Ghost(Seq::empty()),
            ),
            (Phase::RemovingFile { index }, Event::IoFailed { reason }) => self.fail_transfer(
                index,
                reason,
            ),
            (Phase::RemovingSource, Event::Completed) => {
                let line = exploded_line(&self.config);
                let mut notes: Vec<String> = Vec::new();
                notes.push(line);
                self.phase = Phase::Finished;
                Step { notes, action: Action::Finish { result: Ok(()) } }
            },
            (Phase::RemovingSource, Event::IoFailed { reason }) => self.fail(
                ExplodeError::RemoveSource { source: self.config.source.clone(), reason },
            ),
            _ => vstd::pervasive::unreached(),
        }
    }
}

} // verus!
