use vstd::prelude::*;

verus! {

/// The directory used as destination when none is given.
pub open spec fn default_destination() -> Seq<char> {
    "."@
}

/// What one invocation was asked to do. It is read-only once built.
#[derive(Debug)]
pub struct Config {
    /// The directory whose children are moved out.
    pub source: String,
    /// The directory that receives them.
    pub destination: String,
    /// Whether progress lines are emitted.
    pub verbose: bool,
    /// Whether the filesystem is left untouched.
    pub dry_run: bool,
    /// Whether existing destination entries may be overwritten.
    pub force: bool,
}

impl Config {
    /// Builds a configuration; a missing destination means the current
    /// directory, `.`.
    pub fn new(
        source: String,
        destination: Option<String>,
        verbose: bool,
        dry_run: bool,
        force: bool,
    ) -> (r: Config)
        ensures
            r.source == source,
            match destination {
                Some(d) => r.destination == d,
                None => r.destination@ == default_destination(),
            },
            r.verbose == verbose,
            r.dry_run == dry_run,
            r.force == force,
    {
        let destination = match destination {
            Some(d) => d,
            None => String::from_str("."),
        };
        Config { source, destination, verbose, dry_run, force }
    }
}

/// What a path on disk turned out to be when probed.
#[derive(Clone, Copy, Debug, PartialEq, Eq, Structural)]
pub enum PathState {
    /// Nothing exists at the path.
    Missing,
    /// A directory exists at the path.
    Directory,
    /// Something other than a directory exists at the path.
    Other,
}

/// The kind of a source entry, checked as directory first, then file.
#[derive(Clone, Copy, Debug, PartialEq, Eq, Structural)]
pub enum EntryKind {
    Dir,
    File,
    Other,
}

impl EntryKind {
    /// The word that names this kind in messages.
    pub open spec fn label_spec(self) -> Seq<char> {
        match self {
            EntryKind::Dir => "Dir"@,
            EntryKind::File => "File"@,
            EntryKind::Other => "Entry"@,
        }
    }

    /// Returns the word that names this kind in messages.
    pub fn label(&self) -> (r: String)
        ensures
            r@ == self.label_spec(),
    {
        match self {
            EntryKind::Dir => String::from_str("Dir"),
            EntryKind::File => String::from_str("File"),
            EntryKind::Other => String::from_str("Entry"),
        }
    }
}

} // verus!
