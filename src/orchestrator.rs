//! The `init` command as a state machine. The caller feeds it events (the
//! outcome of the last action) and carries out the action it returns, until
//! the action is `Finish`.
//!
//! Policies: every failure is fatal, a process that exits with a failing
//! status included, and no later operation is started after one. A failure
//! while the scaffold is being written removes the partial project directory
//! before finishing, so that no half-built project is left behind; a failure
//! of a repository command leaves the complete tree in place.
use vstd::prelude::*;
use vstd::string::*;
use crate::plan::{Op, OpSpec, ops_view, strings_view, create_project, init_git};

verus! {

#[derive(Clone, Copy, PartialEq, Eq, Structural)]
pub enum Phase {
    /// Nothing has happened yet.
    Idle,
    /// Waiting to learn whether the project path exists.
    Checking,
    /// Carrying out the pipeline's operations one by one.
    Running,
    /// Removing a partially written project after a scaffold failure.
    CleaningUp,
    /// Every operation succeeded.
    Done,
    /// A conflict or a failed operation ended the command.
    Failed,
}

/// What the caller reports back after carrying out an action.
pub enum Event {
    /// The command was invoked.
    Start,
    /// The outcome of `CheckPath`.
    PathChecked { exists: bool },
    /// The last operation succeeded (a process ran and exited with success).
    Completed,
    /// The last operation failed: an I/O error, a process that could not be
    /// started, or one that exited with a failing status.
    Failed { detail: String },
}

pub enum EventSpec {
    Start,
    PathChecked { exists: bool },
    Completed,
    Failed { detail: Seq<char> },
}

impl View for Event {
    type V = EventSpec;

    open spec fn view(&self) -> EventSpec {
        match self {
            Event::Start => EventSpec::Start,
            Event::PathChecked { exists } => EventSpec::PathChecked { exists: *exists },
            Event::Completed => EventSpec::Completed,
            Event::Failed { detail } => EventSpec::Failed { detail: detail@ },
        }
    }
}

/// What the caller must do next.
pub enum Action {
    /// Find out whether `path` exists, and report `PathChecked`.
    CheckPath { path: String },
    /// Carry out `op`, and report `Completed` or `Failed`.
    Perform { op: Op },
    /// Print `message` (when not empty) and exit with `code`.
    Finish { code: i32, message: String },
    /// The event did not apply: nothing to do.
    Nothing,
}

pub enum ActionSpec {
    CheckPath { path: Seq<char> },
    Perform { op: OpSpec },
    Finish { code: i32, message: Seq<char> },
    Nothing,
}

impl View for Action {
    type V = ActionSpec;

    open spec fn view(&self) -> ActionSpec {
        match self {
            Action::CheckPath { path } => ActionSpec::CheckPath { path: path@ },
            Action::Perform { op } => ActionSpec::Perform { op: op@ },
            Action::Finish { code, message } => ActionSpec::Finish {
                code: *code,
                message: message@,
            },
            Action::Nothing => ActionSpec::Nothing,
        }
    }
}

/// The abstract state of an [`Orchestrator`].
pub struct Machine {
    pub name: Seq<char>,
    pub ops: Seq<OpSpec>,
    pub scaffold_len: nat,
    pub pos: nat,
    pub phase: Phase,
    pub failure: Seq<char>,
}

pub open spec fn moved(s: Machine, phase: Phase, pos: nat, failure: Seq<char>) -> Machine {
    Machine { name: s.name, ops: s.ops, scaffold_len: s.scaffold_len, pos, phase, failure }
}

pub open spec fn conflict_message(name: Seq<char>) -> Seq<char> {
    "project '"@ + name + "' already exists."@
}

/// Names the operation in a diagnostic.
pub open spec fn describe(op: OpSpec) -> Seq<char> {
    match op {
        OpSpec::CreateDirAll { path } => "create "@ + path,
        OpSpec::WriteFile { path, contents } => "write "@ + path,
        OpSpec::Announce { line } => "print"@,
        OpSpec::Run { program, args, dir } => if args.len() > 0 {
            program + " "@ + args[0]
        } else {
            program
        },
        OpSpec::RemoveDirAll { path } => "remove "@ + path,
    }
}

pub open spec fn failure_message(op: OpSpec, detail: Seq<char>) -> Seq<char> {
    describe(op) + " failed: "@ + detail
}

/// One transition: the next state and the action to carry out.
pub open spec fn next(s: Machine, e: EventSpec) -> (Machine, ActionSpec) {
    match s.phase {
        Phase::Idle => match e {
            EventSpec::Start => (
                moved(s, Phase::Checking, s.pos, s.failure),
                ActionSpec::CheckPath { path: s.name },
            ),
            _ => (s, ActionSpec::Nothing),
        },
        Phase::Checking => match e {
            EventSpec::PathChecked { exists } => if exists {
                (
                    moved(s, Phase::Failed, s.pos, s.failure),
                    ActionSpec::Finish { code: 1, message: conflict_message(s.name) },
                )
            } else if s.ops.len() == 0 {
                (moved(s, Phase::Done, 0, s.failure), ActionSpec::Finish { code: 0, message: Seq::empty() })
            } else {
                (moved(s, Phase::Running, 0, s.failure), ActionSpec::Perform { op: s.ops[0] })
            },
            _ => (s, ActionSpec::Nothing),
        },
        Phase::Running => match e {
            EventSpec::Completed => if s.pos + 1 < s.ops.len() {
                (
                    moved(s, Phase::Running, s.pos + 1, s.failure),
                    ActionSpec::Perform { op: s.ops[s.pos + 1int] },
                )
            } else {
                (moved(s, Phase::Done, s.pos, s.failure), ActionSpec::Finish { code: 0, message: Seq::empty() })
            },
            EventSpec::Failed { detail } => {
                let msg = failure_message(s.ops[s.pos as int], detail);
                if s.pos < s.scaffold_len {
                    (
                        moved(s, Phase::CleaningUp, s.pos, msg),
                        ActionSpec::Perform { op: OpSpec::RemoveDirAll { path: s.name } },
                    )
                } else {
                    (moved(s, Phase::Failed, s.pos, msg), ActionSpec::Finish { code: 1, message: msg })
                }
            },
            _ => (s, ActionSpec::Nothing),
        },
        Phase::CleaningUp => match e {
            EventSpec::Completed => (
                moved(s, Phase::Failed, s.pos, s.failure),
                ActionSpec::Finish { code: 1, message: s.failure },
            ),
            EventSpec::Failed { detail } => (
                moved(s, Phase::Failed, s.pos, s.failure),
                ActionSpec::Finish { code: 1, message: s.failure },
            ),
            _ => (s, ActionSpec::Nothing),
        },
        Phase::Done => (s, ActionSpec::Nothing),
        Phase::Failed => (s, ActionSpec::Nothing),
    }
}

/// The state in which `init name --lang lang` starts.
pub open spec fn initial(name: Seq<char>, lang: Seq<char>) -> Machine {
    Machine {
        name,
        ops: crate::plan::pipeline_ops(name, lang),
        scaffold_len: crate::plan::scaffold_ops(name, lang).len(),
        pos: 0,
        phase: Phase::Idle,
        failure: Seq::empty(),
    }
}

/// Drives one `init` command.
pub struct Orchestrator {
    name: String,
    ops: Vec<Op>,
    scaffold_len: usize,
    pos: usize,
    phase: Phase,
    failure: String,
}

impl View for Orchestrator {
    type V = Machine;

    closed spec fn view(&self) -> Machine {
        Machine {
            name: self.name@,
            ops: ops_view(self.ops@),
            scaffold_len: self.scaffold_len as nat,
            pos: self.pos as nat,
            phase: self.phase,
            failure: self.failure@,
        }
    }
}

fn copy_string(s: &String) -> (r: String)
    ensures
        r@ == s@,
{
    String::from_str(s.as_str())
}

fn copy_strings(v: &Vec<String>) -> (r: Vec<String>)
    ensures
        strings_view(r@) == strings_view(v@),
{
    let mut r: Vec<String> = Vec::new();
    let mut i: usize = 0;
    while i < v.len()
        invariant
            i <= v@.len(),
            r@.len() == i,
            forall|k: int| 0 <= k < i ==> #[trigger] r@[k]@ == v@[k]@,
        decreases v@.len() - i,
    {
        r.push(copy_string(&v[i]));
        i = i + 1;
    }
    assert(strings_view(r@) =~= strings_view(v@));
    r
}

fn copy_op(op: &Op) -> (r: Op)
    ensures
        r@ == op@,
{
    match op {
        Op::CreateDirAll { path } => Op::CreateDirAll { path: copy_string(path) },
        Op::WriteFile { path, contents } => Op::WriteFile {
            path: copy_string(path),
            contents: copy_string(contents),
        },
        Op::Announce { line } => Op::Announce { line: copy_string(line) },
        Op::Run { program, args, dir } => Op::Run {
            program: copy_string(program),
            args: copy_strings(args),
            dir: copy_string(dir),
        },
        Op::RemoveDirAll { path } => Op::RemoveDirAll { path: copy_string(path) },
    }
}

fn describe_op(op: &Op) -> (r: String)
    ensures
        r@ == describe(op@),
{
    match op {
        Op::CreateDirAll { path } => {
            let mut s = String::from_str("create ");
            s.append(path.as_str());
            s
        },
        Op::WriteFile { path, contents } => {
            let mut s = String::from_str("write ");
            s.append(path.as_str());
            s
        },
        Op::Announce { line } => String::from_str("print"),
        Op::Run { program, args, dir } => {
            let mut s = copy_string(program);
            if args.len() > 0 {
                s.append(" ");
                s.append(args[0].as_str());
            }
            s
        },
        Op::RemoveDirAll { path } => {
            let mut s = String::from_str("remove ");
            s.append(path.as_str());
            s
        },
    }
}

impl Orchestrator {
    pub closed spec fn wf(&self) -> bool {
        self.phase == Phase::Running ==> self.pos < self.ops@.len()
    }

    /// A machine for `init name --lang lang`.
    pub fn new(name: &str, lang: &str) -> (r: Self)
        ensures
            r.wf(),
            r@ == initial(name@, lang@),
    {
        let ops = create_project(name, lang);
        let scaffold_len = ops.len();
        let mut all = ops;
        let mut git = init_git(name);
        let ghost a = all@;
        all.append(&mut git);
        proof {
            assert(ops_view(all@) =~= ops_view(a) + crate::plan::git_ops(name@));
        }
        Orchestrator {
            name: String::from_str(name),
            ops: all,
            scaffold_len,
            pos: 0,
            phase: Phase::Idle,
            failure: String::new(),
        }
    }

    /// The current phase.
    pub fn phase(&self) -> (r: Phase)
        ensures
            r == self@.phase,
    {
        self.phase
    }

    /// Takes the outcome of the last action and returns the next one.
    pub fn step(&mut self, event: Event) -> (r: Action)
        requires
            old(self).wf(),
        ensures
            final(self).wf(),
            (final(self)@, r@) == next(old(self)@, event@),
    {
        match self.phase {
            Phase::Idle => match event {
                Event::Start => {
                    self.phase = Phase::Checking;
                    Action::CheckPath { path: copy_string(&self.name) }
                },
                _ => Action::Nothing,
            },
            Phase::Checking => match event {
                Event::PathChecked { exists } => {
                    if exists {
                        self.phase = Phase::Failed;
                        let mut m = String::from_str("project '");
                        m.append(self.name.as_str());
                        m.append("' already exists.");
                        Action::Finish { code: 1, message: m }
                    } else if self.ops.len() == 0 {
                        self.phase = Phase::Done;
                        self.pos = 0;
                        Action::Finish { code: 0, message: String::new() }
                    } else {
                        self.phase = Phase::Running;
                        self.pos = 0;
                        Action::Perform { op: copy_op(&self.ops[0]) }
                    }
                },
                _ => Action::Nothing,
            },
            Phase::Running => match event {
                Event::Completed => {
                    if self.pos < self.ops.len() - 1 {
                        self.pos = self.pos + 1;
                        Action::Perform { op: copy_op(&self.ops[self.pos]) }
                    } else {
                        self.phase = Phase::Done;
                        Action::Finish { code: 0, message: String::new() }
                    }
                },
                Event::Failed { detail } => {
                    let mut msg = describe_op(&self.ops[self.pos]);
                    msg.append(" failed: ");
                    msg.append(detail.as_str());
                    if self.pos < self.scaffold_len {
                        self.phase = Phase::CleaningUp;
                        self.failure = msg;
                        Action::Perform { op: Op::RemoveDirAll { path: copy_string(&self.name) } }
                    } else {
                        self.phase = Phase::Failed;
                        self.failure = copy_string(&msg);
                        Action::Finish { code: 1, message: msg }
                    }
                },
                _ => Action::Nothing,
            },
            Phase::CleaningUp => match event {
                Event::Completed => {
                    self.phase = Phase::Failed;
                    Action::Finish { code: 1, message: copy_string(&self.failure) }
                },
                Event::Failed { detail } => {
                    self.phase = Phase::Failed;
                    Action::Finish { code: 1, message: copy_string(&self.failure) }
                },
                _ => Action::Nothing,
            },
            Phase::Done => Action::Nothing,
            Phase::Failed => Action::Nothing,
        }
    }
}

} // verus!
