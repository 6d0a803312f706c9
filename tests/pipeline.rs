use std::collections::{BTreeMap, BTreeSet};

use flowforge::orchestrator::{Action, Event, Orchestrator, Phase};
use flowforge::plan::{create_project, entry_template, init_git, Op};

const NATIVE: &str = "\n\nfn main() {\n  println!(\"Hello from your Rust project!\");\n}\n\n";
const GENERIC: &str = "\nfn main() {\n   println!(\"Hello from your project!\")\n}\n";

/// An in-memory stand-in for the filesystem and the process layer.
#[derive(Default)]
struct World {
    dirs: BTreeSet<String>,
    files: BTreeMap<String, String>,
    runs: Vec<(String, Vec<String>, String)>,
    printed: Vec<String>,
    writes: usize,
    fail_at: Option<usize>,
    performed: usize,
}

impl World {
    fn has_path(&self, path: &str) -> bool {
        self.dirs.contains(path) || self.files.contains_key(path)
    }

    fn perform(&mut self, op: Op) -> Event {
        let k = self.performed;
        self.performed += 1;
        if self.fail_at == Some(k) {
            return Event::Failed { detail: "disk full".to_string() };
        }
        match op {
            Op::CreateDirAll { path } => {
                let mut cur = String::new();
                for part in path.split('/') {
                    if !cur.is_empty() {
                        cur.push('/');
                    }
                    cur.push_str(part);
                    self.dirs.insert(cur.clone());
                }
                self.writes += 1;
            }
            Op::WriteFile { path, contents } => {
                self.files.insert(path, contents);
                self.writes += 1;
            }
            Op::Announce { line } => self.printed.push(line),
            Op::Run { program, args, dir } => self.runs.push((program, args, dir)),
            Op::RemoveDirAll { path } => {
                let prefix = format!("{}/", path);
                self.dirs.retain(|d| d != &path && !d.starts_with(&prefix));
                self.files.retain(|f, _| !f.starts_with(&prefix));
            }
        }
        Event::Completed
    }
}

fn init(world: &mut World, name: &str, lang: &str) -> (i32, String) {
    let mut machine = Orchestrator::new(name, lang);
    let mut event = Event::Start;
    loop {
        match machine.step(event) {
            Action::CheckPath { path } => event = Event::PathChecked { exists: world.has_path(&path) },
            Action::Perform { op } => event = world.perform(op),
            Action::Finish { code, message } => return (code, message),
            Action::Nothing => panic!("the machine ignored an event"),
        }
    }
}

fn strings(v: &[&str]) -> Vec<String> {
    v.iter().map(|s| s.to_string()).collect()
}

#[test]
fn native_selector_gives_native_template() {
    assert_eq!(entry_template("rust"), NATIVE);
}

#[test]
fn other_selectors_give_generic_template() {
    assert_eq!(entry_template("basic"), GENERIC);
    assert_eq!(entry_template("python"), GENERIC);
    assert_eq!(entry_template(""), GENERIC);
    assert_eq!(entry_template("Rust"), GENERIC);
    assert_eq!(entry_template("rust "), GENERIC);
}

#[test]
fn scaffold_ops_are_exact() {
    let ops = create_project("demo", "rust");
    assert_eq!(ops.len(), 5);
    assert!(matches!(&ops[0], Op::CreateDirAll { path } if path == "demo/src"));
    assert!(matches!(&ops[1], Op::WriteFile { path, contents }
        if path == "demo/README.md" && contents == "# demo\n\nCreated with Flowforge"));
    assert!(matches!(&ops[2], Op::WriteFile { path, contents }
        if path == "demo/.gitignore" && contents == "target/\n.DS_Store\n"));
    assert!(matches!(&ops[3], Op::WriteFile { path, contents }
        if path == "demo/src/main.rs" && contents == NATIVE));
    assert!(matches!(&ops[4], Op::Announce { line }
        if line == "project 'demo' created successfully!"));
}

#[test]
fn git_ops_are_exact() {
    let ops = init_git("demo");
    let runs: Vec<(String, Vec<String>, String)> = ops
        .into_iter()
        .filter_map(|op| match op {
            Op::Run { program, args, dir } => Some((program, args, dir)),
            _ => None,
        })
        .collect();
    assert_eq!(
        runs,
        vec![
            ("git".to_string(), strings(&["init"]), "demo".to_string()),
            ("git".to_string(), strings(&["add", "."]), "demo".to_string()),
            ("git".to_string(), strings(&["commit", "-m", "Initial commit"]), "demo".to_string()),
        ]
    );
}

#[test]
fn fresh_project_has_exactly_four_paths() {
    let mut world = World::default();
    let (code, message) = init(&mut world, "proj", "basic");
    assert_eq!(code, 0);
    assert_eq!(message, "");
    let dirs: Vec<&str> = world.dirs.iter().map(|s| s.as_str()).collect();
    assert_eq!(dirs, vec!["proj", "proj/src"]);
    let files: Vec<&str> = world.files.keys().map(|s| s.as_str()).collect();
    assert_eq!(files, vec!["proj/.gitignore", "proj/README.md", "proj/src/main.rs"]);
    assert_eq!(world.files["proj/README.md"], "# proj\n\nCreated with Flowforge");
    assert_eq!(world.files["proj/.gitignore"], "target/\n.DS_Store\n");
    assert_eq!(world.files["proj/src/main.rs"], GENERIC);
}

#[test]
fn git_steps_run_in_order_inside_project() {
    let mut world = World::default();
    let (code, _) = init(&mut world, "demo", "rust");
    assert_eq!(code, 0);
    assert_eq!(
        world.runs,
        vec![
            ("git".to_string(), strings(&["init"]), "demo".to_string()),
            ("git".to_string(), strings(&["add", "."]), "demo".to_string()),
            ("git".to_string(), strings(&["commit", "-m", "Initial commit"]), "demo".to_string()),
        ]
    );
    assert_eq!(
        world.printed,
        strings(&[
            "project 'demo' created successfully!",
            "Initializing git repository...",
            "Git repository initialized",
        ])
    );
}

#[test]
fn init_demo_rust_end_to_end() {
    let mut world = World::default();
    let (code, _) = init(&mut world, "demo", "rust");
    assert_eq!(code, 0);
    assert_eq!(world.files["demo/README.md"].lines().next(), Some("# demo"));
    let ignore: Vec<&str> = world.files["demo/.gitignore"].lines().collect();
    assert_eq!(ignore, vec!["target/", ".DS_Store"]);
    assert!(world.files["demo/src/main.rs"].contains("println!(\"Hello from your Rust project!\");"));
}

#[test]
fn init_demo_twice_conflicts() {
    let mut world = World::default();
    let (first, _) = init(&mut world, "demo", "basic");
    assert_eq!(first, 0);
    let writes = world.writes;
    let runs = world.runs.len();
    let (second, message) = init(&mut world, "demo", "basic");
    assert_ne!(second, 0);
    assert_eq!(message, "project 'demo' already exists.");
    assert_eq!(world.writes, writes);
    assert_eq!(world.runs.len(), runs);
}

#[test]
fn existing_path_performs_nothing() {
    let mut world = World::default();
    world.files.insert("taken".to_string(), "x".to_string());
    let (code, message) = init(&mut world, "taken", "rust");
    assert_eq!(code, 1);
    assert!(message.contains("taken"));
    assert_eq!(world.performed, 0);
    assert_eq!(world.files.len(), 1);
}

#[test]
fn scaffold_failure_removes_partial_project() {
    let mut world = World::default();
    world.fail_at = Some(2);
    let (code, message) = init(&mut world, "demo", "rust");
    assert_eq!(code, 1);
    assert_eq!(message, "write demo/.gitignore failed: disk full");
    assert!(world.dirs.is_empty());
    assert!(world.files.is_empty());
    assert!(world.runs.is_empty());
}

#[test]
fn git_failure_stops_later_steps() {
    let mut world = World::default();
    world.fail_at = Some(7);
    let (code, message) = init(&mut world, "demo", "rust");
    assert_eq!(code, 1);
    assert_eq!(message, "git add failed: disk full");
    assert_eq!(world.runs, vec![("git".to_string(), strings(&["init"]), "demo".to_string())]);
    assert_eq!(world.files.len(), 3);
}

#[test]
fn events_that_do_not_apply_are_ignored() {
    let mut machine = Orchestrator::new("demo", "rust");
    assert!(matches!(machine.step(Event::Completed), Action::Nothing));
    assert!(machine.phase() == Phase::Idle);
    assert!(matches!(machine.step(Event::Start), Action::CheckPath { path } if path == "demo"));
    assert!(matches!(machine.step(Event::PathChecked { exists: true }), Action::Finish { code: 1, .. }));
    assert!(machine.phase() == Phase::Failed);
    assert!(matches!(machine.step(Event::Completed), Action::Nothing));
    assert!(matches!(machine.step(Event::Start), Action::Nothing));
}
