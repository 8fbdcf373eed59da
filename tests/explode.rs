use std::collections::BTreeMap;

use explode::config::{Config, EntryKind, PathState};
use explode::error::ExplodeError;
use explode::session::{Action, Event, Exploder, Phase, RenameOutcome};

#[derive(Clone, Debug, PartialEq)]
enum Node {
    Dir,
    File(String),
}

/// A filesystem kept in memory, keyed by full path.
struct Disk {
    nodes: BTreeMap<String, Node>,
    cross_device: bool,
    fail_create: bool,
    fail_list: bool,
    fail_rename: bool,
    mutations: usize,
}

fn join(dir: &str, name: &str) -> String {
    format!("{dir}/{name}")
}

impl Disk {
    fn new() -> Disk {
        Disk {
            nodes: BTreeMap::new(),
            cross_device: false,
            fail_create: false,
            fail_list: false,
            fail_rename: false,
            mutations: 0,
        }
    }

    fn dir(&mut self, path: &str) {
        self.nodes.insert(path.to_string(), Node::Dir);
    }

    fn file(&mut self, path: &str, content: &str) {
        self.nodes.insert(path.to_string(), Node::File(content.to_string()));
    }

    fn state(&self, path: &str) -> PathState {
        match self.nodes.get(path) {
            None => PathState::Missing,
            Some(Node::Dir) => PathState::Directory,
            Some(Node::File(_)) => PathState::Other,
        }
    }

    fn content(&self, path: &str) -> Option<String> {
        match self.nodes.get(path) {
            Some(Node::File(c)) => Some(c.clone()),
            _ => None,
        }
    }

    fn has(&self, path: &str) -> bool {
        self.nodes.contains_key(path)
    }

    fn children(&self, dir: &str) -> Vec<String> {
        let prefix = format!("{dir}/");
        self.nodes
            .keys()
            .filter_map(|k| k.strip_prefix(&prefix))
            .filter(|rest| !rest.contains('/'))
            .map(|rest| rest.to_string())
            .collect()
    }

    fn subtree(&self, root: &str) -> Vec<String> {
        let prefix = format!("{root}/");
        self.nodes
            .keys()
            .filter(|k| k.as_str() == root || k.starts_with(&prefix))
            .cloned()
            .collect()
    }

    fn copy_tree(&mut self, from: &str, to: &str) {
        for k in self.subtree(from) {
            let node = self.nodes[&k].clone();
            let target = format!("{to}{}", &k[from.len()..]);
            self.nodes.insert(target, node);
        }
    }

    fn remove_tree(&mut self, root: &str) {
        for k in self.subtree(root) {
            self.nodes.remove(&k);
        }
    }
}

/// Runs a whole session against `disk`; returns the result, as a message,
/// and the progress lines shown.
fn run(disk: &mut Disk, config: Config) -> (Result<(), String>, Vec<String>) {
    let source = config.source.clone();
    let destination = config.destination.clone();
    let mut session = Exploder::new(config);
    let mut event = Event::Started;
    let mut names: Vec<String> = Vec::new();
    let mut lines: Vec<String> = Vec::new();
    loop {
        assert!(session.accepts(&event));
        let step = session.step(event);
        lines.extend(step.notes);
        event = match step.action {
            Action::Probe => Event::Probed {
                source: disk.state(&source),
                destination: disk.state(&destination),
            },
            Action::CreateDestination => {
                if disk.fail_create {
                    Event::IoFailed { reason: "Permission denied".to_string() }
                } else {
                    disk.mutations += 1;
                    disk.dir(&destination);
                    Event::Completed
                }
            },
            Action::ListSource => {
                if disk.fail_list {
                    Event::IoFailed { reason: "Permission denied".to_string() }
                } else {
                    names = disk.children(&source);
                    Event::Listed { names: names.clone() }
                }
            },
            Action::Inspect { index } => {
                let from = join(&source, &names[index]);
                let kind = match disk.nodes.get(&from) {
                    Some(Node::Dir) => EntryKind::Dir,
                    Some(Node::File(_)) => EntryKind::File,
                    None => EntryKind::Other,
                };
                let target_exists = disk.has(&join(&destination, &names[index]));
                Event::Inspected { kind, target_exists }
            },
            Action::Rename { index } => {
                let from = join(&source, &names[index]);
                let to = join(&destination, &names[index]);
                if disk.fail_rename {
                    Event::Renamed {
                        outcome: RenameOutcome::Failed { reason: "Permission denied".to_string() },
                    }
                } else if disk.cross_device {
                    Event::Renamed { outcome: RenameOutcome::CrossDevice }
                } else {
                    disk.mutations += 1;
                    disk.remove_tree(&to);
                    disk.copy_tree(&from, &to);
                    disk.remove_tree(&from);
                    Event::Renamed { outcome: RenameOutcome::Moved }
                }
            },
            Action::CopyDirectory { index, .. } => {
                disk.mutations += 1;
                let from = join(&source, &names[index]);
                let to = join(&destination, &names[index]);
                disk.copy_tree(&from, &to);
                Event::Completed
            },
            Action::CopyFile { index } => {
                disk.mutations += 1;
                let from = join(&source, &names[index]);
                let to = join(&destination, &names[index]);
                disk.copy_tree(&from, &to);
                Event::Completed
            },
            Action::RemoveFile { index } => {
                disk.mutations += 1;
                disk.remove_tree(&join(&source, &names[index]));
                Event::Completed
            },
            Action::RemoveSource => {
                if disk.children(&source).is_empty() {
                    disk.mutations += 1;
                    disk.nodes.remove(&source);
                    Event::Completed
                } else {
                    Event::IoFailed { reason: "Directory not empty".to_string() }
                }
            },
            Action::Finish { result } => {
                assert!(session.is_finished());
                return (result.map_err(|e| e.message()), lines);
            },
        };
    }
}

fn config(force: bool, dry_run: bool) -> Config {
    Config::new("src".to_string(), Some("dst".to_string()), true, dry_run, force)
}

fn four_files(content: &str) -> Disk {
    let mut disk = Disk::new();
    disk.dir("src");
    for x in 1..5 {
        disk.file(&format!("src/{x}"), content);
    }
    disk
}

#[test]
fn verify_cli() {
    let c = Config::new("src".to_string(), None, false, false, false);
    assert_eq!(c.source, "src");
    assert_eq!(c.destination, ".");
    assert!(!c.verbose && !c.dry_run && !c.force);
    let c = Config::new("a".to_string(), Some("b".to_string()), true, true, true);
    assert_eq!(c.destination, "b");
    assert!(c.verbose && c.dry_run && c.force);
}

#[test]
fn normal() {
    let mut disk = four_files("Paaag");
    let (result, lines) = run(&mut disk, config(false, false));
    assert_eq!(result, Ok(()));
    assert!(!disk.has("src"));
    assert_eq!(disk.state("dst"), PathState::Directory);
    for x in 1..5 {
        assert_eq!(disk.content(&format!("dst/{x}")), Some("Paaag".to_string()));
    }
    assert_eq!(lines.last().unwrap(), "Exploded src to dst");
}

#[test]
fn dry_run() {
    let mut disk = four_files("Paaag");
    let before = disk.nodes.clone();
    let (result, _) = run(&mut disk, config(false, true));
    assert_eq!(result, Ok(()));
    assert_eq!(disk.state("src"), PathState::Directory);
    for x in 1..5 {
        assert_eq!(disk.content(&format!("src/{x}")), Some("Paaag".to_string()));
    }
    assert!(!disk.has("dst"));
    assert_eq!(disk.nodes, before);
    assert_eq!(disk.mutations, 0);
}

#[test]
fn file_in_output_exists() {
    let mut disk = four_files("");
    disk.dir("dst");
    disk.file("dst/3", "foo bar baz");
    let (result, _) = run(&mut disk, config(false, false));
    assert!(result.is_err());
    assert_eq!(result, Err(format!("File 3 already exists in {}", "dst")));
    assert!(disk.has("src"));
    assert!(disk.has("dst"));
    assert_eq!(disk.content("dst/3"), Some("foo bar baz".to_string()));
}

#[test]
fn file_in_output_exists_overwrite() {
    let mut disk = four_files("Paaag");
    disk.dir("dst");
    disk.file("dst/3", "FloppaDespair");
    let (result, _) = run(&mut disk, config(true, false));
    assert_eq!(result, Ok(()));
    assert!(!disk.has("src"));
    assert!(disk.has("dst"));
    assert_eq!(disk.content("dst/3"), Some("Paaag".to_string()));
}

#[test]
fn verbose_lines_name_every_move() {
    let mut disk = Disk::new();
    disk.dir("src");
    disk.file("src/a", "x");
    disk.file("src/b", "y");
    let (result, lines) = run(&mut disk, config(false, false));
    assert_eq!(result, Ok(()));
    assert_eq!(
        lines,
        vec![
            "Moving files in src -> dst",
            "Moving src/a -> dst/a",
            "Moving src/b -> dst/b",
            "Removed src",
            "Exploded src to dst",
        ]
    );
}

#[test]
fn quiet_run_shows_only_summary() {
    let mut disk = four_files("Paaag");
    let c = Config::new("src".to_string(), Some("dst".to_string()), false, false, false);
    let (result, lines) = run(&mut disk, c);
    assert_eq!(result, Ok(()));
    assert_eq!(lines, vec!["Exploded src to dst"]);
}

#[test]
fn dry_run_lines_announce_without_moving() {
    let mut disk = Disk::new();
    disk.dir("src");
    disk.file("src/a", "x");
    let (result, lines) = run(&mut disk, config(false, true));
    assert_eq!(result, Ok(()));
    assert_eq!(
        lines,
        vec![
            "Moving files in src -> dst",
            "Moving src/a -> dst/a",
            "Removed src",
            "Exploded src to dst",
        ]
    );
    assert_eq!(disk.mutations, 0);
}

#[test]
fn dry_run_with_conflict_touches_nothing() {
    let mut disk = four_files("Paaag");
    disk.dir("dst");
    disk.file("dst/3", "old");
    let before = disk.nodes.clone();
    let (result, _) = run(&mut disk, config(false, true));
    assert_eq!(result, Err("File 3 already exists in dst".to_string()));
    assert_eq!(disk.nodes, before);
}

#[test]
fn empty_source_is_removed() {
    let mut disk = Disk::new();
    disk.dir("src");
    let (result, _) = run(&mut disk, config(false, false));
    assert_eq!(result, Ok(()));
    assert!(!disk.has("src"));
    assert_eq!(disk.state("dst"), PathState::Directory);
}

#[test]
fn missing_source_fails_twice_alike() {
    let mut disk = Disk::new();
    let (first, _) = run(&mut disk, config(false, false));
    let (second, _) = run(&mut disk, config(false, false));
    assert_eq!(first, Err("Source path src does not exist".to_string()));
    assert_eq!(second, first);
    assert!(!disk.has("dst"));
    assert_eq!(disk.mutations, 0);
}

#[test]
fn source_that_is_a_file_fails() {
    let mut disk = Disk::new();
    disk.file("src", "x");
    let (result, _) = run(&mut disk, config(false, false));
    assert_eq!(result, Err("Source path src is not a directory".to_string()));
    assert_eq!(disk.mutations, 0);
}

#[test]
fn destination_that_is_a_file_fails() {
    let mut disk = four_files("Paaag");
    disk.file("dst", "x");
    let (result, _) = run(&mut disk, config(false, false));
    assert_eq!(result, Err("Target path dst is not a directory".to_string()));
    assert_eq!(disk.mutations, 0);
}

#[test]
fn conflicting_directory_is_named_dir() {
    let mut disk = Disk::new();
    disk.dir("src");
    disk.dir("src/sub");
    disk.dir("dst");
    disk.dir("dst/sub");
    let (result, _) = run(&mut disk, config(false, false));
    assert_eq!(result, Err("Dir sub already exists in dst".to_string()));
}

#[test]
fn cross_device_file_is_copied_then_removed() {
    let mut disk = four_files("Paaag");
    disk.cross_device = true;
    let (result, _) = run(&mut disk, config(false, false));
    assert_eq!(result, Ok(()));
    assert!(!disk.has("src"));
    for x in 1..5 {
        assert_eq!(disk.content(&format!("dst/{x}")), Some("Paaag".to_string()));
    }
}

#[test]
fn cross_device_directory_is_copied_and_kept() {
    let mut disk = Disk::new();
    disk.dir("src");
    disk.dir("src/sub");
    disk.file("src/sub/f", "z");
    disk.cross_device = true;
    let (result, _) = run(&mut disk, config(false, false));
    assert_eq!(result, Err("Failed to remove directory src".to_string()));
    assert_eq!(disk.content("dst/sub/f"), Some("z".to_string()));
    assert_eq!(disk.content("src/sub/f"), Some("z".to_string()));
}

#[test]
fn cross_device_directory_asks_for_overwrite_when_forced() {
    let mut c = config(true, false);
    c.verbose = false;
    let mut s = Exploder::new(c);
    s.step(Event::Started);
    s.step(Event::Probed { source: PathState::Directory, destination: PathState::Directory });
    s.step(Event::Listed { names: vec!["sub".to_string()] });
    s.step(Event::Inspected { kind: EntryKind::Dir, target_exists: false });
    let r = s.step(Event::Renamed { outcome: RenameOutcome::CrossDevice });
    assert!(matches!(r.action, Action::CopyDirectory { index: 0, overwrite: true }));
}

#[test]
fn failed_create_is_reported() {
    let mut disk = four_files("Paaag");
    disk.fail_create = true;
    let (result, _) = run(&mut disk, config(false, false));
    assert_eq!(result, Err("Failed to create destination dir".to_string()));
}

#[test]
fn failed_listing_is_reported() {
    let mut disk = four_files("Paaag");
    disk.fail_list = true;
    let (result, _) = run(&mut disk, config(false, false));
    assert_eq!(result, Err("Failed to read directory src".to_string()));
}

#[test]
fn failed_rename_is_reported_with_paths() {
    let mut disk = four_files("Paaag");
    disk.fail_rename = true;
    let (result, _) = run(&mut disk, config(false, false));
    assert_eq!(result, Err("Failed to move or copy src/1 to dst/1".to_string()));
    assert!(disk.has("src/1"));
}

#[test]
fn error_reason_is_kept() {
    let e = ExplodeError::RemoveSource { source: "src".to_string(), reason: "busy".to_string() };
    assert_eq!(e.message(), "Failed to remove directory src");
    assert_eq!(e.reason(), Some("busy".to_string()));
    let e = ExplodeError::SourceNotFound { source: "src".to_string() };
    assert_eq!(e.reason(), None);
}

#[test]
fn kind_labels() {
    assert_eq!(EntryKind::Dir.label(), "Dir");
    assert_eq!(EntryKind::File.label(), "File");
    assert_eq!(EntryKind::Other.label(), "Entry");
}

#[test]
fn session_rejects_unexpected_events() {
    let mut s = Exploder::new(config(false, false));
    assert!(!s.accepts(&Event::Completed));
    assert!(s.accepts(&Event::Started));
    let r = s.step(Event::Started);
    assert!(matches!(r.action, Action::Probe));
    assert_eq!(s.phase, Phase::Probing);
    assert!(!s.accepts(&Event::Started));
    assert!(s.accepts(&Event::Probed { source: PathState::Missing, destination: PathState::Missing }));
}
