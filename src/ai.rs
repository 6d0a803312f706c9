//! The `ai` subcommand: a keyword-based intent router with canned replies.
use vstd::prelude::*;
use vstd::string::*;
use crate::text::{seq_contains, str_contains, str_eq, spaced, join_spaced};
use crate::plan::strings_view;

verus! {

/// What the user seems to want.
#[derive(Clone, Copy, PartialEq, Eq, Structural, Debug)]
pub enum AiTask {
    Explain,
    Summarize,
    Ask,
    Analyze,
}

/// How the engine reports its work.
pub struct AiConfig {
    pub verbose: bool,
}

/// Routes a request to the handler of its task.
pub struct AiEngine;

/// The lower-case form of a text, as std computes it.
pub uninterp spec fn lower_of(s: Seq<char>) -> Seq<char>;

/// Relies on `str::to_lowercase`: the result depends on the characters alone.
#[verifier::external_body]
fn lowercase(s: &str) -> (r: String)
    ensures
        r@ == lower_of(s@),
{
    s.to_lowercase()
}

/// The task of an already lower-cased request: the first keyword group that
/// occurs in it decides.
pub open spec fn classify(lowered: Seq<char>) -> AiTask {
    if seq_contains(lowered, "explain"@) {
        AiTask::Explain
    } else if seq_contains(lowered, "summarize"@) || seq_contains(lowered, "summary"@) {
        AiTask::Summarize
    } else if seq_contains(lowered, "ask"@) || seq_contains(lowered, "?"@) {
        AiTask::Ask
    } else {
        AiTask::Analyze
    }
}

pub open spec fn explain_text(input: Seq<char>) -> Seq<char> {
    "Explanation requested.\n\nInput context:\n\""@ + input
        + "\"\n\nFuture versions will analyze project files and dependencies."@
}

pub open spec fn summary_text(input: Seq<char>) -> Seq<char> {
    "Summary (mock):\n\n\""@ + input + "\"\n\nThis placeholder simulates content summarization."@
}

pub open spec fn answer_text(input: Seq<char>) -> Seq<char> {
    "This is a simulated AI response to your question:\n\""@ + input
        + "\"\n\nFuture versions will incorporate project structure,\ncommand history, and execution context."@
}

pub open spec fn analysis_text(input: Seq<char>) -> Seq<char> {
    "Analysis placeholder for input:\n\""@ + input
        + "\"\n\nThis step is designed for future system-level reasoning."@
}

/// The reply to `input` for `task`.
pub open spec fn response_text(task: AiTask, input: Seq<char>) -> Seq<char> {
    match task {
        AiTask::Explain => explain_text(input),
        AiTask::Summarize => summary_text(input),
        AiTask::Ask => answer_text(input),
        AiTask::Analyze => analysis_text(input),
    }
}

fn wrapped(head: &str, input: &str, tail: &str) -> (r: String)
    ensures
        r@ == head@ + input@ + tail@,
{
    let mut s = String::from_str(head);
    s.append(input);
    s.append(tail);
    s
}

impl AiEngine {
    pub fn new() -> (r: Self) {
        AiEngine
    }

    /// The task of a request that is already in lower case.
    pub fn classify_lowered(&self, lowered: &str) -> (r: AiTask)
        ensures
            r == classify(lowered@),
    {
        if str_contains(lowered, "explain") {
            AiTask::Explain
        } else if str_contains(lowered, "summarize") || str_contains(lowered, "summary") {
            AiTask::Summarize
        } else if str_contains(lowered, "ask") || str_contains(lowered, "?") {
            AiTask::Ask
        } else {
            AiTask::Analyze
        }
    }

    /// The task of `input`, whatever its case.
    pub fn detect_task(&self, input: &str) -> (r: AiTask)
        ensures
            r == classify(lower_of(input@)),
    {
        let lowered = lowercase(input);
        self.classify_lowered(lowered.as_str())
    }

    /// The reply to `input`, once its task is known.
    pub fn respond(&self, task: AiTask, input: &str) -> (r: String)
        ensures
            r@ == response_text(task, input@),
    {
        match task {
            AiTask::Explain => self.explain(input),
            AiTask::Summarize => self.summarize(input),
            AiTask::Ask => self.answer(input),
            AiTask::Analyze => self.analyze(input),
        }
    }

    /// Detects the task of `input` and replies to it. Reporting the detected
    /// task when `config.verbose` is the caller's part.
    pub fn process(&self, input: &str, config: &AiConfig) -> (r: String)
        ensures
            r@ == response_text(classify(lower_of(input@)), input@),
    {
        let task = self.detect_task(input);
        self.respond(task, input)
    }

    pub fn explain(&self, input: &str) -> (r: String)
        ensures
            r@ == explain_text(input@),
    {
        wrapped(
            "Explanation requested.\n\nInput context:\n\"",
            input,
            "\"\n\nFuture versions will analyze project files and dependencies.",
        )
    }

    pub fn summarize(&self, input: &str) -> (r: String)
        ensures
            r@ == summary_text(input@),
    {
        wrapped(
            "Summary (mock):\n\n\"",
            input,
            "\"\n\nThis placeholder simulates content summarization.",
        )
    }

    pub fn answer(&self, input: &str) -> (r: String)
        ensures
            r@ == answer_text(input@),
    {
        wrapped(
            "This is a simulated AI response to your question:\n\"",
            input,
            "\"\n\nFuture versions will incorporate project structure,\ncommand history, and execution context.",
        )
    }

    pub fn analyze(&self, input: &str) -> (r: String)
        ensures
            r@ == analysis_text(input@),
    {
        wrapped(
            "Analysis placeholder for input:\n\"",
            input,
            "\"\n\nThis step is designed for future system-level reasoning.",
        )
    }
}

/// What the `ai` subcommand is asked to do.
pub enum AiCommand {
    /// Show the usage text.
    Help,
    /// `ask` came without a question.
    MissingQuestion,
    /// Answer `question`: the words after `ask`, joined by spaces.
    Ask { question: String },
    /// Explain the README of the current directory.
    Explain,
    /// The first word is no known command.
    Unknown { command: String },
}

pub enum AiCommandSpec {
    Help,
    MissingQuestion,
    Ask { question: Seq<char> },
    Explain,
    Unknown { command: Seq<char> },
}

impl View for AiCommand {
    type V = AiCommandSpec;

    open spec fn view(&self) -> AiCommandSpec {
        match self {
            AiCommand::Help => AiCommandSpec::Help,
            AiCommand::MissingQuestion => AiCommandSpec::MissingQuestion,
            AiCommand::Ask { question } => AiCommandSpec::Ask { question: question@ },
            AiCommand::Explain => AiCommandSpec::Explain,
            AiCommand::Unknown { command } => AiCommandSpec::Unknown { command: command@ },
        }
    }
}

/// The command that the words `args` ask for.
pub open spec fn ai_command(args: Seq<Seq<char>>) -> AiCommandSpec {
    if args.len() == 0 || args[0] == "help"@ {
        AiCommandSpec::Help
    } else if args[0] == "ask"@ || args[0] == "question"@ {
        if args.len() < 2 {
            AiCommandSpec::MissingQuestion
        } else {
            AiCommandSpec::Ask { question: spaced(args.drop_first()) }
        }
    } else if args[0] == "explain"@ {
        AiCommandSpec::Explain
    } else {
        AiCommandSpec::Unknown { command: args[0] }
    }
}

/// Reads the words given to the `ai` subcommand.
pub fn handle_ai(args: Vec<String>) -> (r: AiCommand)
    ensures
        r@ == ai_command(strings_view(args@)),
{
    let ghost words = strings_view(args@);
    if args.len() == 0 {
        return AiCommand::Help;
    }
    let first = args[0].as_str();
    if str_eq(first, "help") {
        AiCommand::Help
    } else if str_eq(first, "ask") || str_eq(first, "question") {
        if args.len() < 2 {
            AiCommand::MissingQuestion
        } else {
            let question = join_spaced(&args, 1);
            assert(args@.subrange(1, args@.len() as int).map_values(|w: String| w@)
                =~= words.drop_first());
            AiCommand::Ask { question }
        }
    } else if str_eq(first, "explain") {
        AiCommand::Explain
    } else {
        AiCommand::Unknown { command: String::from_str(first) }
    }
}

} // verus!
