//! What holds of whole runs of the `init` state machine.
use vstd::prelude::*;
use crate::plan::{
    OpSpec, pipeline_ops, src_dir_path, readme_path, gitignore_path, entry_path, readme_text,
    gitignore_text, entry_template_text, git_run,
};
use crate::orchestrator::{Machine, EventSpec, ActionSpec, Phase, next, initial, conflict_message};

verus! {

/// The state reached and the actions returned when the events `es` are fed
/// to the machine in state `s`, one after the other.
pub open spec fn run(s: Machine, es: Seq<EventSpec>) -> (Machine, Seq<ActionSpec>)
    decreases es.len(),
{
    if es.len() == 0 {
        (s, Seq::empty())
    } else {
        let first = next(s, es[0]);
        let rest = run(first.0, es.drop_first());
        (rest.0, seq![first.1] + rest.1)
    }
}

/// `n` reports that an action succeeded.
pub open spec fn completions(n: nat) -> Seq<EventSpec> {
    Seq::new(n, |i: int| EventSpec::Completed)
}

pub open spec fn performs(ops: Seq<OpSpec>) -> Seq<ActionSpec> {
    ops.map_values(|o: OpSpec| ActionSpec::Perform { op: o })
}

pub open spec fn nothings(n: nat) -> Seq<ActionSpec> {
    Seq::new(n, |i: int| ActionSpec::Nothing)
}

/// The paths that `ops` create, as directories or files.
pub open spec fn touched_paths(ops: Seq<OpSpec>) -> Set<Seq<char>>
    decreases ops.len(),
{
    if ops.len() == 0 {
        Set::empty()
    } else {
        let before = touched_paths(ops.drop_last());
        match ops.last() {
            OpSpec::CreateDirAll { path } => before.insert(path),
            OpSpec::WriteFile { path, contents } => before.insert(path),
            _ => before,
        }
    }
}

/// The files that `ops` write, with the contents they end up holding.
pub open spec fn written_files(ops: Seq<OpSpec>) -> Map<Seq<char>, Seq<char>>
    decreases ops.len(),
{
    if ops.len() == 0 {
        Map::empty()
    } else {
        let before = written_files(ops.drop_last());
        match ops.last() {
            OpSpec::WriteFile { path, contents } => before.insert(path, contents),
            _ => before,
        }
    }
}

/// The processes that `ops` run, in order.
pub open spec fn runs_of(ops: Seq<OpSpec>) -> Seq<OpSpec>
    decreases ops.len(),
{
    if ops.len() == 0 {
        Seq::empty()
    } else {
        let before = runs_of(ops.drop_last());
        match ops.last() {
            OpSpec::Run { program, args, dir } => before.push(ops.last()),
            _ => before,
        }
    }
}

/// Once every action succeeds, a running machine performs the remaining
/// operations in order and then finishes with exit code 0.
pub proof fn lemma_run_to_done(s: Machine)
    requires
        s.phase == Phase::Running,
        s.pos < s.ops.len(),
    ensures
        run(s, completions((s.ops.len() - s.pos) as nat)).0.phase == Phase::Done,
        run(s, completions((s.ops.len() - s.pos) as nat)).1 == performs(
            s.ops.subrange(s.pos + 1int, s.ops.len() as int),
        ) + seq![ActionSpec::Finish { code: 0, message: Seq::empty() }],
    decreases s.ops.len() - s.pos,
{
    let es = completions((s.ops.len() - s.pos) as nat);
    assert(es[0] == EventSpec::Completed);
    let first = next(s, es[0]);
    assert(es.drop_first() =~= completions((s.ops.len() - s.pos - 1) as nat));
    assert(run(s, es) == (run(first.0, es.drop_first()).0, seq![first.1] + run(
        first.0,
        es.drop_first(),
    ).1));
    if s.pos + 1 < s.ops.len() {
        let t = first.0;
        lemma_run_to_done(t);
        assert(performs(s.ops.subrange(s.pos + 1int, s.ops.len() as int)) =~= seq![
            ActionSpec::Perform { op: s.ops[s.pos + 1int] },
        ] + performs(s.ops.subrange(s.pos + 2int, s.ops.len() as int)));
        assert(run(s, es).1 =~= seq![first.1] + run(t, es.drop_first()).1);
    } else {
        assert(es.drop_first() =~= Seq::<EventSpec>::empty());
        assert(run(first.0, es.drop_first()) == (first.0, Seq::<ActionSpec>::empty()));
        assert(performs(s.ops.subrange(s.pos + 1int, s.ops.len() as int)) =~= Seq::empty());
        assert(run(s, es).1 =~= seq![first.1]);
    }
}

/// `init name --lang lang`, where `name` does not exist yet and every step
/// succeeds: the machine checks the path, performs the whole pipeline in
/// order (the tree, the three files, then `git init`, `git add .` and
/// `git commit -m "Initial commit"` inside the project), and exits with 0.
/// The pipeline creates exactly the four paths under `name/`, and writes the
/// README, the ignore file and the selected starter file with their exact
/// contents; it runs exactly the three repository commands, in that order.
pub proof fn lemma_fresh_project(name: Seq<char>, lang: Seq<char>)
    ensures
        ({
            let es = seq![EventSpec::Start, EventSpec::PathChecked { exists: false }]
                + completions(pipeline_ops(name, lang).len());
            let r = run(initial(name, lang), es);
            &&& r.0.phase == Phase::Done
            &&& r.1 == seq![ActionSpec::CheckPath { path: name }] + performs(
                pipeline_ops(name, lang),
            ) + seq![ActionSpec::Finish { code: 0, message: Seq::empty() }]
        }),
        touched_paths(pipeline_ops(name, lang)) == set![
            src_dir_path(name),
            readme_path(name),
            gitignore_path(name),
            entry_path(name),
        ],
        written_files(pipeline_ops(name, lang)) == map![
            readme_path(name) => readme_text(name),
            gitignore_path(name) => gitignore_text(),
            entry_path(name) => entry_template_text(lang),
        ],
        runs_of(pipeline_ops(name, lang)) == seq![
            git_run(name, seq!["init"@]),
            git_run(name, seq!["add"@, "."@]),
            git_run(name, seq!["commit"@, "-m"@, "Initial commit"@]),
        ],
{
    let ops = pipeline_ops(name, lang);
    let s0 = initial(name, lang);
    let es = seq![EventSpec::Start, EventSpec::PathChecked { exists: false }] + completions(
        ops.len(),
    );
    assert(es[0] == EventSpec::Start);
    let s1 = next(s0, es[0]).0;
    let es1 = es.drop_first();
    assert(es1[0] == EventSpec::PathChecked { exists: false });
    let s2 = next(s1, es1[0]).0;
    let es2 = es1.drop_first();
    assert(es2 =~= completions(ops.len()));
    assert(run(s0, es) == (run(s1, es1).0, seq![next(s0, es[0]).1] + run(s1, es1).1));
    assert(run(s1, es1) == (run(s2, es2).0, seq![next(s1, es1[0]).1] + run(s2, es2).1));
    lemma_run_to_done(s2);
    assert(ops.subrange(1, ops.len() as int) =~= ops.drop_first());
    assert(performs(ops) =~= seq![ActionSpec::Perform { op: ops[0] }] + performs(
        ops.drop_first(),
    ));
    assert(run(s0, es).1 =~= seq![ActionSpec::CheckPath { path: name }] + (seq![
        ActionSpec::Perform { op: ops[0] },
    ] + run(s2, es2).1));
    assert(run(s0, es).1 =~= seq![ActionSpec::CheckPath { path: name }] + performs(ops)
        + seq![ActionSpec::Finish { code: 0, message: Seq::empty() }]);
    reveal_with_fuel(touched_paths, 11);
    reveal_with_fuel(written_files, 11);
    reveal_with_fuel(runs_of, 11);
    assert(ops.len() == 10);
    assert(ops.drop_last().drop_last().drop_last().drop_last().drop_last().drop_last()
        =~= ops.subrange(0, 4));
    assert(touched_paths(ops) =~= set![
        src_dir_path(name),
        readme_path(name),
        gitignore_path(name),
        entry_path(name),
    ]);
    assert(written_files(ops) =~= map![
        readme_path(name) => readme_text(name),
        gitignore_path(name) => gitignore_text(),
        entry_path(name) => entry_template_text(lang),
    ]);
    assert(runs_of(ops) =~= seq![
        git_run(name, seq!["init"@]),
        git_run(name, seq!["add"@, "."@]),
        git_run(name, seq!["commit"@, "-m"@, "Initial commit"@]),
    ]);
}

/// A machine that has failed ignores every later event.
pub proof fn lemma_failed_is_final(s: Machine, es: Seq<EventSpec>)
    requires
        s.phase == Phase::Failed,
    ensures
        run(s, es) == (s, nothings(es.len())),
    decreases es.len(),
{
    if es.len() > 0 {
        lemma_failed_is_final(s, es.drop_first());
        assert(run(s, es) == (run(s, es.drop_first()).0, seq![ActionSpec::Nothing] + run(
            s,
            es.drop_first(),
        ).1));
        assert(nothings(es.len()) =~= seq![ActionSpec::Nothing] + nothings(
            es.drop_first().len(),
        ));
    }
}

/// `init name --lang lang` where `name` already exists: the machine checks
/// the path, finishes with exit code 1 and a message naming the project, and
/// performs no operation whatever is reported afterwards.
pub proof fn lemma_existing_project(name: Seq<char>, lang: Seq<char>, es: Seq<EventSpec>)
    ensures
        ({
            let r = run(
                initial(name, lang),
                seq![EventSpec::Start, EventSpec::PathChecked { exists: true }] + es,
            );
            &&& r.0.phase == Phase::Failed
            &&& r.1 == seq![
                ActionSpec::CheckPath { path: name },
                ActionSpec::Finish { code: 1, message: conflict_message(name) },
            ] + nothings(es.len())
            &&& forall|i: int| 0 <= i < r.1.len() ==> !(#[trigger] r.1[i] is Perform)
        }),
{
    let s0 = initial(name, lang);
    let all = seq![EventSpec::Start, EventSpec::PathChecked { exists: true }] + es;
    assert(all[0] == EventSpec::Start);
    let s1 = next(s0, all[0]).0;
    let all1 = all.drop_first();
    assert(all1[0] == EventSpec::PathChecked { exists: true });
    let s2 = next(s1, all1[0]).0;
    assert(all1.drop_first() =~= es);
    assert(run(s0, all) == (run(s1, all1).0, seq![next(s0, all[0]).1] + run(s1, all1).1));
    assert(run(s1, all1) == (run(s2, es).0, seq![next(s1, all1[0]).1] + run(s2, es).1));
    lemma_failed_is_final(s2, es);
    let r = run(s0, all);
    assert(r.1 =~= seq![
        ActionSpec::CheckPath { path: name },
        ActionSpec::Finish { code: 1, message: conflict_message(name) },
    ] + nothings(es.len()));
}

/// After a failure, the machine starts no operation and only ever finishes
/// with exit code 1.
pub proof fn lemma_stopped_stays_stopped(s: Machine, es: Seq<EventSpec>)
    requires
        s.phase == Phase::CleaningUp || s.phase == Phase::Failed,
    ensures
        ({
            let r = run(s, es);
            &&& r.0.phase == Phase::CleaningUp || r.0.phase == Phase::Failed
            &&& forall|i: int| 0 <= i < r.1.len() ==> !(#[trigger] r.1[i] is Perform)
            &&& forall|i: int|
                0 <= i < r.1.len() && #[trigger] r.1[i] is Finish ==> r.1[i]->code == 1
        }),
    decreases es.len(),
{
    if es.len() > 0 {
        let first = next(s, es[0]);
        lemma_stopped_stays_stopped(first.0, es.drop_first());
        let rest = run(first.0, es.drop_first());
        assert(run(s, es) == (rest.0, seq![first.1] + rest.1));
        assert forall|i: int| 0 < i < run(s, es).1.len() implies run(s, es).1[i] == rest.1[i
            - 1] by {}
    }
}

/// When an operation fails, no later operation of the pipeline is started:
/// the machine removes the partial project if the failure came during the
/// scaffold, and in every case finishes with exit code 1.
pub proof fn lemma_failure_stops(s: Machine, detail: Seq<char>, es: Seq<EventSpec>)
    requires
        s.phase == Phase::Running,
        s.pos < s.ops.len(),
    ensures
        ({
            let r = run(s, seq![EventSpec::Failed { detail }] + es);
            &&& r.0.phase == Phase::CleaningUp || r.0.phase == Phase::Failed
            &&& if s.pos < s.scaffold_len {
                r.1[0] == ActionSpec::Perform { op: OpSpec::RemoveDirAll { path: s.name } }
            } else {
                r.1[0] is Finish && r.1[0]->code == 1
            }
            &&& forall|i: int| 1 <= i < r.1.len() ==> !(#[trigger] r.1[i] is Perform)
            &&& forall|i: int|
                0 <= i < r.1.len() && #[trigger] r.1[i] is Finish ==> r.1[i]->code == 1
        }),
{
    let all = seq![EventSpec::Failed { detail }] + es;
    assert(all[0] == EventSpec::Failed { detail });
    assert(all.drop_first() =~= es);
    let first = next(s, all[0]);
    lemma_stopped_stays_stopped(first.0, es);
    let rest = run(first.0, es);
    assert(run(s, all) == (rest.0, seq![first.1] + rest.1));
    assert forall|i: int| 1 <= i < run(s, all).1.len() implies run(s, all).1[i] == rest.1[i
        - 1] by {}
}

} // verus!
