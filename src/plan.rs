//! The operations of the bootstrap pipeline: what the scaffold writes and
//! which repository commands run, with their exact contents.
use vstd::prelude::*;
use vstd::string::*;

verus! {

/// One step that the caller carries out on the library's behalf.
pub enum Op {
    /// Create `path` and every missing parent directory.
    CreateDirAll { path: String },
    /// Write `contents` to the file at `path`.
    WriteFile { path: String, contents: String },
    /// Print `line` to the console.
    Announce { line: String },
    /// Run `program` with `args`, in the working directory `dir`, and wait.
    Run { program: String, args: Vec<String>, dir: String },
    /// Remove `path` and everything below it.
    RemoveDirAll { path: String },
}

/// The mathematical value of an [`Op`].
pub enum OpSpec {
    CreateDirAll { path: Seq<char> },
    WriteFile { path: Seq<char>, contents: Seq<char> },
    Announce { line: Seq<char> },
    Run { program: Seq<char>, args: Seq<Seq<char>>, dir: Seq<char> },
    RemoveDirAll { path: Seq<char> },
}

pub open spec fn strings_view(v: Seq<String>) -> Seq<Seq<char>> {
    v.map_values(|s: String| s@)
}

impl View for Op {
    type V = OpSpec;

    open spec fn view(&self) -> OpSpec {
        match self {
            Op::CreateDirAll { path } => OpSpec::CreateDirAll { path: path@ },
            Op::WriteFile { path, contents } => OpSpec::WriteFile {
                path: path@,
                contents: contents@,
            },
            Op::Announce { line } => OpSpec::Announce { line: line@ },
            Op::Run { program, args, dir } => OpSpec::Run {
                program: program@,
                args: strings_view(args@),
                dir: dir@,
            },
            Op::RemoveDirAll { path } => OpSpec::RemoveDirAll { path: path@ },
        }
    }
}

pub open spec fn ops_view(v: Seq<Op>) -> Seq<OpSpec> {
    v.map_values(|o: Op| o@)
}

pub open spec fn src_dir_path(name: Seq<char>) -> Seq<char> {
    name + "/src"@
}

pub open spec fn readme_path(name: Seq<char>) -> Seq<char> {
    name + "/README.md"@
}

pub open spec fn gitignore_path(name: Seq<char>) -> Seq<char> {
    name + "/.gitignore"@
}

pub open spec fn entry_path(name: Seq<char>) -> Seq<char> {
    name + "/src/main.rs"@
}

/// The README: a title line naming the project, a blank line, an attribution.
pub open spec fn readme_text(name: Seq<char>) -> Seq<char> {
    "# "@ + name + "\n\nCreated with Flowforge"@
}

/// The ignore file: `target/` and `.DS_Store`, one per line.
pub open spec fn gitignore_text() -> Seq<char> {
    "target/\n.DS_Store\n"@
}

/// The starter file for the native systems language.
pub open spec fn native_template_text() -> Seq<char> {
    "\n\nfn main() {\n  println!(\"Hello from your Rust project!\");\n}\n\n"@
}

/// The starter file for every other selector.
pub open spec fn generic_template_text() -> Seq<char> {
    "\nfn main() {\n   println!(\"Hello from your project!\")\n}\n"@
}

/// The selector that picks the native template.
pub open spec fn is_native(lang: Seq<char>) -> bool {
    lang == "rust"@
}

pub open spec fn entry_template_text(lang: Seq<char>) -> Seq<char> {
    if is_native(lang) {
        native_template_text()
    } else {
        generic_template_text()
    }
}

pub open spec fn created_line(name: Seq<char>) -> Seq<char> {
    "project '"@ + name + "' created successfully!"@
}

/// What the scaffold does for a project `name` with selector `lang`: the
/// directory tree, the three seed files, then a success line.
pub open spec fn scaffold_ops(name: Seq<char>, lang: Seq<char>) -> Seq<OpSpec> {
    seq![
        OpSpec::CreateDirAll { path: src_dir_path(name) },
        OpSpec::WriteFile { path: readme_path(name), contents: readme_text(name) },
        OpSpec::WriteFile { path: gitignore_path(name), contents: gitignore_text() },
        OpSpec::WriteFile { path: entry_path(name), contents: entry_template_text(lang) },
        OpSpec::Announce { line: created_line(name) },
    ]
}

pub open spec fn git_run(name: Seq<char>, args: Seq<Seq<char>>) -> OpSpec {
    OpSpec::Run { program: "git"@, args, dir: name }
}

/// The repository set-up: initialize, stage everything, commit; each run
/// inside the project directory, with a progress line before and after.
pub open spec fn git_ops(name: Seq<char>) -> Seq<OpSpec> {
    seq![
        OpSpec::Announce { line: "Initializing git repository..."@ },
        git_run(name, seq!["init"@]),
        git_run(name, seq!["add"@, "."@]),
        git_run(name, seq!["commit"@, "-m"@, "Initial commit"@]),
        OpSpec::Announce { line: "Git repository initialized"@ },
    ]
}

/// The whole pipeline for a fresh project.
pub open spec fn pipeline_ops(name: Seq<char>, lang: Seq<char>) -> Seq<OpSpec> {
    scaffold_ops(name, lang) + git_ops(name)
}

fn joined(a: &str, b: &str) -> (r: String)
    ensures
        r@ == a@ + b@,
{
    let mut s = String::from_str(a);
    s.append(b);
    s
}

/// The starter-file body for the selector `lang`.
pub fn entry_template(lang: &str) -> (r: &'static str)
    ensures
        r@ == entry_template_text(lang@),
{
    if crate::text::str_eq(lang, "rust") {
        "\n\nfn main() {\n  println!(\"Hello from your Rust project!\");\n}\n\n"
    } else {
        "\nfn main() {\n   println!(\"Hello from your project!\")\n}\n"
    }
}

/// The scaffold operations for project `name` with selector `lang`.
pub fn create_project(name: &str, lang: &str) -> (r: Vec<Op>)
    ensures
        ops_view(r@) == scaffold_ops(name@, lang@),
{
    let mut readme = String::from_str("# ");
    readme.append(name);
    readme.append("\n\nCreated with Flowforge");
    let mut line = String::from_str("project '");
    line.append(name);
    line.append("' created successfully!");
    let r = vec![
        Op::CreateDirAll { path: joined(name, "/src") },
        Op::WriteFile { path: joined(name, "/README.md"), contents: readme },
        Op::WriteFile {
            path: joined(name, "/.gitignore"),
            contents: String::from_str("target/\n.DS_Store\n"),
        },
        Op::WriteFile {
            path: joined(name, "/src/main.rs"),
            contents: String::from_str(entry_template(lang)),
        },
        Op::Announce { line },
    ];
    assert(ops_view(r@) =~= scaffold_ops(name@, lang@));
    r
}

fn git(name: &str, args: Vec<String>) -> (r: Op)
    ensures
        r@ == git_run(name@, strings_view(args@)),
{
    Op::Run { program: String::from_str("git"), args, dir: String::from_str(name) }
}

/// The repository operations for the project directory `name`.
pub fn init_git(name: &str) -> (r: Vec<Op>)
    ensures
        ops_view(r@) == git_ops(name@),
{
    let init = vec![String::from_str("init")];
    assert(strings_view(init@) =~= seq!["init"@]);
    let add = vec![String::from_str("add"), String::from_str(".")];
    assert(strings_view(add@) =~= seq!["add"@, "."@]);
    let commit = vec![
        String::from_str("commit"),
        String::from_str("-m"),
        String::from_str("Initial commit"),
    ];
    assert(strings_view(commit@) =~= seq!["commit"@, "-m"@, "Initial commit"@]);
    let r = vec![
        Op::Announce { line: String::from_str("Initializing git repository...") },
        git(name, init),
        git(name, add),
        git(name, commit),
        Op::Announce { line: String::from_str("Git repository initialized") },
    ];
    assert(ops_view(r@) =~= git_ops(name@));
    r
}

} // verus!
