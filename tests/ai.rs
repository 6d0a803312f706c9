use flowforge::ai::{handle_ai, AiCommand, AiConfig, AiEngine, AiTask};

fn words(v: &[&str]) -> Vec<String> {
    v.iter().map(|s| s.to_string()).collect()
}

#[test]
fn detects_each_task() {
    let engine = AiEngine::new();
    assert_eq!(engine.detect_task("Please EXPLAIN this"), AiTask::Explain);
    assert_eq!(engine.detect_task("give me a Summary"), AiTask::Summarize);
    assert_eq!(engine.detect_task("summarize it and explain"), AiTask::Explain);
    assert_eq!(engine.detect_task("What is this?"), AiTask::Ask);
    assert_eq!(engine.detect_task("I want to ASK"), AiTask::Ask);
    assert_eq!(engine.detect_task("check the build"), AiTask::Analyze);
    assert_eq!(engine.detect_task(""), AiTask::Analyze);
}

#[test]
fn classify_lowered_is_case_sensitive() {
    let engine = AiEngine::new();
    assert_eq!(engine.classify_lowered("EXPLAIN"), AiTask::Analyze);
    assert_eq!(engine.classify_lowered("explain"), AiTask::Explain);
}

#[test]
fn canned_replies() {
    let engine = AiEngine::new();
    assert_eq!(
        engine.explain("x"),
        "Explanation requested.\n\nInput context:\n\"x\"\n\nFuture versions will analyze project files and dependencies."
    );
    assert_eq!(
        engine.summarize("x"),
        "Summary (mock):\n\n\"x\"\n\nThis placeholder simulates content summarization."
    );
    assert_eq!(
        engine.answer("x"),
        "This is a simulated AI response to your question:\n\"x\"\n\nFuture versions will incorporate project structure,\ncommand history, and execution context."
    );
    assert_eq!(
        engine.analyze("x"),
        "Analysis placeholder for input:\n\"x\"\n\nThis step is designed for future system-level reasoning."
    );
}

#[test]
fn process_routes_by_task() {
    let engine = AiEngine::new();
    let config = AiConfig { verbose: false };
    assert_eq!(engine.process("Why?", &config), engine.answer("Why?"));
    assert_eq!(engine.process("SUMMARY please", &config), engine.summarize("SUMMARY please"));
    assert_eq!(engine.process("build", &config), engine.analyze("build"));
}

#[test]
fn reads_commands() {
    assert!(matches!(handle_ai(vec![]), AiCommand::Help));
    assert!(matches!(handle_ai(words(&["help"])), AiCommand::Help));
    assert!(matches!(handle_ai(words(&["ask"])), AiCommand::MissingQuestion));
    assert!(matches!(handle_ai(words(&["explain", "more"])), AiCommand::Explain));
    assert!(matches!(handle_ai(words(&["ask", "what", "is", "this?"])),
        AiCommand::Ask { question } if question == "what is this?"));
    assert!(matches!(handle_ai(words(&["question", "why"])),
        AiCommand::Ask { question } if question == "why"));
    assert!(matches!(handle_ai(words(&["analyze", "x"])),
        AiCommand::Unknown { command } if command == "analyze"));
}
