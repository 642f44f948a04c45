use reasoner::context::{Exchange, RContext};
use reasoner::gather::{FileRead, KnowledgeRead, ReadOutcome};
use reasoner::job::{Commands, EditKind, Job, Line, Next, Outcome, Purpose, ReplError, Step};
use reasoner::message::ToolCall;
use reasoner::models::{ConfigError, LLMClientConfig, LLMType, ModelTable};
use reasoner::repl::{
    command_heard, command_started, commit_described, commit_message_written, diff_shown, done,
    entered_line, knowledge_written, observed, recorded, replied, Repl,
};
use reasoner::agent::AgentError;
use reasoner::run::{exit_of, CommandExit, CommandRun, Stream};
use reasoner::session::RSession;

fn text(s: &str) -> String {
    s.to_string()
}

fn words(list: &[&str]) -> Vec<String> {
    list.iter().map(|word| word.to_string()).collect()
}

fn repl() -> Repl {
    let config = LLMClientConfig::from_api_keys(text("o"), text("a"), None);
    Repl::new(RSession::start(), config)
}

fn repl_with_file() -> Repl {
    let mut repl = repl();
    repl.file_checked(text("a.rs"), true);
    repl
}

fn said(step: &Step) -> Vec<String> {
    step.lines
        .iter()
        .map(|line| match line {
            Line::Print(words) => words.clone(),
            Line::Error(words) => format!("! {words}"),
        })
        .collect()
}

fn job(step: Step) -> Job {
    match step.next {
        Next::Await(job) => job,
        other => panic!("{other:?}"),
    }
}

fn finished(step: &Step) -> bool {
    matches!(step.next, Next::Finished { exit: false })
}

fn error(step: Step) -> ReplError {
    match step.next {
        Next::Failed(error) => error,
        other => panic!("{other:?}"),
    }
}

#[test]
fn entered_lines_are_trimmed() {
    assert_eq!(entered_line("  fix it \n"), Some(text("fix it")));
    assert_eq!(entered_line(" \t "), None);
    assert_eq!(entered_line(""), None);
}

#[test]
fn only_exit_exits_the_interpreter() {
    let mut repl = repl();
    let step = repl.process_input("exit", Some(Commands::Exit));
    assert!(matches!(step.next, Next::Finished { exit: true }));
    assert!(said(&step).is_empty());
    let step = repl.process_input("clear", Some(Commands::Clear));
    assert!(finished(&step));
}

#[test]
fn requests_are_refused_without_files() {
    let mut repl = repl();
    let step = repl.process_input("do it", None);
    let refusal =
        "No files in pending context. Please add at least one file using the 'Add' command.";
    assert_eq!(error(step).message(), refusal);
    let step =
        repl.process_input("implementer x", Some(Commands::Implementer { request: words(&["x"]) }));
    assert_eq!(error(step).message(), refusal);
}

#[test]
fn files_are_added_and_removed() {
    let mut repl = repl();
    let step = repl.process_input("add a", Some(Commands::Add { file_path: text("a") }));
    assert!(matches!(job(step), Job::CheckFile { path } if path == "a"));
    assert!(repl.pending_file_paths.is_empty());
    let step = repl.file_checked(text("a"), true);
    assert_eq!(said(&step), words(&["Added file to pending context: a"]));
    repl.file_checked(text("b"), true);
    repl.file_checked(text("a"), true);
    let step = repl.file_checked(text("c"), false);
    assert_eq!(said(&step), words(&["File not found: c"]));
    assert_eq!(repl.pending_file_paths, words(&["a", "b", "a"]));
    let step = repl.process_input("remove 3", Some(Commands::Remove { index: 3 }));
    assert_eq!(said(&step), words(&["Index 3 is out of range"]));
    let step = repl.process_input("remove 0", Some(Commands::Remove { index: 0 }));
    assert_eq!(said(&step), words(&["Removed file at index 0"]));
    assert_eq!(repl.pending_file_paths, words(&["b", "a"]));
    repl.file_checked(text("z"), true);
    repl.process_input("remove 2", Some(Commands::Remove { index: 2 }));
    assert_eq!(repl.pending_file_paths, words(&["b", "a"]));
}

#[test]
fn everything_pending_is_shown() {
    let mut repl = repl_with_file();
    repl.knowledge_saved(text("api"));
    let step = repl.process_input("context", Some(Commands::Context));
    assert_eq!(
        said(&step),
        words(&[
            "\nPending files:",
            "[0] a.rs",
            "\nLoaded knowledge files:",
            "  api",
            "No command outputs in context."
        ])
    );
    assert!(finished(&step));
}

#[test]
fn clearing_the_context_clears_files_and_commands_only() {
    let mut repl = repl_with_file();
    repl.knowledge_saved(text("api"));
    repl.session.exchanges.push(Exchange::Response(text("r")));
    repl.command_exited(CommandRun::fresh(words(&["ls"])), CommandExit::Signal);
    let step = repl.process_input("clear-context", Some(Commands::ClearContext));
    assert_eq!(said(&step), words(&["Cleared all pending files and command outputs"]));
    assert!(repl.pending_file_paths.is_empty());
    assert!(repl.pending_command_contexts.is_empty());
    assert_eq!(repl.loaded_knowledge, words(&["api"]));
    assert_eq!(repl.session.exchanges.len(), 1);
    let step = repl.process_input("do it", None);
    assert!(matches!(error(step), ReplError::NoPendingFiles));
}

#[test]
fn clearing_the_history_keeps_the_context() {
    let mut repl = repl_with_file();
    repl.session.exchanges.push(Exchange::Response(text("r")));
    let step = repl.process_input("clear", Some(Commands::Clear));
    assert_eq!(said(&step), words(&["Cleared exchange history."]));
    assert!(repl.session.exchanges.is_empty());
    assert_eq!(repl.pending_file_paths.len(), 1);
}

fn planned_prompt(repl: &mut Repl, request: &str) -> String {
    let message = reasoner::context::HumanMessage { user_request: text(request), context: vec![] };
    match job(repl.planned(message, text("the plan"))) {
        Job::Send { completion } => completion.messages[1].content.clone(),
        other => panic!("{other:?}"),
    }
}

#[test]
fn a_plan_is_handed_on_alike_whatever_came_before() {
    let mut one = repl();
    let mut two = repl();
    two.session.exchanges.push(Exchange::HumanMessage(text("before")));
    let prompt = planned_prompt(&mut one, "this");
    assert_eq!(prompt, "<context>\n</context>\n<user_request>\nthe plan\n</user_request>");
    assert_eq!(prompt, planned_prompt(&mut two, "that"));
    assert_eq!(prompt, planned_prompt(&mut two, "this"));
    assert_eq!(two.session.exchanges.len(), 5);
}

#[test]
fn a_cleared_history_is_not_sent() {
    let mut repl = repl_with_file();
    planned_prompt(&mut repl, "this");
    repl.process_input("clear", Some(Commands::Clear));
    let edit = reasoner::job::EditRequest { kind: EditKind::Architect, text: text("x") };
    let completion = match job(repl.gathered(Purpose::Edit(edit), vec![], vec![], None)) {
        Job::Plan { completion, .. } => completion,
        other => panic!("{other:?}"),
    };
    assert_eq!(
        completion.messages[1].content,
        "<context>\n</context>\n<user_request>\nx\n</user_request>"
    );
}

#[test]
fn knowledge_is_loaded_once_and_unloaded() {
    let mut repl = repl();
    let load = Some(Commands::LoadKnowledge { title: text("api") });
    let step = repl.process_input("load-knowledge api", load);
    assert!(matches!(
        job(step),
        Job::CheckKnowledge { title, file_name } if title == "api" && file_name == "api.md"
    ));
    let step = repl.knowledge_checked(text("api"), false);
    assert_eq!(said(&step), words(&["Knowledge file not found: api"]));
    let step = repl.knowledge_checked(text("api"), true);
    assert_eq!(said(&step), words(&["Loaded knowledge file: api"]));
    let step = repl.knowledge_checked(text("api"), true);
    assert_eq!(said(&step), words(&["Knowledge file already loaded: api"]));
    repl.knowledge_checked(text("style"), true);
    assert_eq!(repl.loaded_knowledge, words(&["api", "style"]));
    let step = repl.process_input("list-knowledge", Some(Commands::ListKnowledge));
    assert_eq!(said(&step), words(&["\nLoaded knowledge files:", "  api", "  style"]));
    let unload = Commands::UnloadKnowledge { title: text("api") };
    let step = repl.process_input("unload-knowledge api", Some(unload));
    assert_eq!(said(&step), words(&["Unloaded knowledge file: api"]));
    assert_eq!(repl.loaded_knowledge, words(&["style"]));
    let unload = Commands::UnloadKnowledge { title: text("api") };
    let step = repl.process_input("unload-knowledge api", Some(unload));
    assert_eq!(said(&step), words(&["Knowledge file not loaded: api"]));
    assert_eq!(repl.loaded_knowledge, words(&["style"]));
}

#[test]
fn recent_changes_are_toggled() {
    let mut repl = repl();
    let step = repl.process_input("x", Some(Commands::IncludeRecentChanges));
    assert_eq!(said(&step), words(&["Recent changes will be included in next request"]));
    assert!(repl.recent_changes_flag);
    let step = repl.process_input("x", Some(Commands::IncludeRecentChanges));
    assert_eq!(said(&step), words(&["Recent changes will not be included in next request"]));
    assert!(!repl.recent_changes_flag);
}

#[test]
fn a_request_is_planned_edited_recorded_and_described() {
    let mut repl = repl_with_file();
    repl.process_input("x", Some(Commands::IncludeRecentChanges));
    repl.knowledge_checked(text("api"), true);

    let edit = match job(repl.process_input("rename a", None)) {
        Job::Describe { edit } => edit,
        other => panic!("{other:?}"),
    };
    assert_eq!(edit.kind, EditKind::Architect);
    assert_eq!(edit.text, "rename a");

    let purpose = match job(repl.described(edit)) {
        Job::Gather { purpose, paths, titles, with_diff } => {
            assert_eq!(paths, words(&["a.rs"]));
            assert_eq!(titles, words(&["api"]));
            assert!(with_diff);
            purpose
        }
        other => panic!("{other:?}"),
    };

    let files = vec![
        FileRead { path: text("a.rs"), outcome: ReadOutcome::Text(text("fn a() {}")) },
        FileRead { path: text("b.rs"), outcome: ReadOutcome::Failed(text("gone")) },
    ];
    let knowledge = vec![KnowledgeRead { title: text("api"), outcome: None }];
    let diff = Some(ReadOutcome::Text(text("+1\n")));
    let step = repl.gathered(purpose, files, knowledge, diff);
    assert_eq!(said(&step), words(&["! Error reading file b.rs: gone"]));
    let (request, completion) = match job(step) {
        Job::Plan { request, completion } => (request, completion),
        other => panic!("{other:?}"),
    };
    assert_eq!(request.user_request, "rename a");
    assert_eq!(completion.model.llm, LLMType::O3MiniHigh);
    assert_eq!(
        completion.messages[1].content,
        "<context>\n<file path=\"a.rs\">\nfn a() {}\n</file>\n\n<recent_changes>\n+1\n</recent_changes>\n\n</context>\n<user_request>\nrename a\n</user_request>"
    );
    assert!(repl.session.exchanges.is_empty());

    let completion = match job(repl.planned(request, text("1. rename"))) {
        Job::Send { completion } => completion,
        other => panic!("{other:?}"),
    };
    assert_eq!(repl.session.exchanges.len(), 2);
    assert_eq!(completion.model.llm, LLMType::ClaudeSonnet);
    assert!(completion.messages[1].content.ends_with("<user_request>\n1. rename\n</user_request>"));
    assert!(!completion.messages[1].content.contains("previous_messages"));

    let calls = vec![ToolCall {
        name: text("str_replace_editor"),
        id: text("t1"),
        input: text("{\"command\": \"view\"}"),
    }];
    let step = replied(completion, text("editing"), calls);
    assert_eq!(said(&step), words(&["editing"]));
    let round = match job(step) {
        Job::Edit { round } => round,
        other => panic!("{other:?}"),
    };
    let completion = match job(observed(round, text("seen"))) {
        Job::Send { completion } => completion,
        other => panic!("{other:?}"),
    };
    assert_eq!(completion.messages.len(), 4);
    let step = replied(completion, text("all done"), vec![]);
    assert_eq!(said(&step), words(&["all done"]));
    assert!(matches!(job(step), Job::Record));

    assert!(matches!(job(recorded()), Job::ReadCommitDiff { after_edit: true }));
    let completion = match job(repl.commit_diff_read(text("+fn b\n"), true)) {
        Job::WriteCommitMessage { completion, after_edit: true } => completion,
        other => panic!("{other:?}"),
    };
    assert_eq!(
        completion.messages[1].content,
        "<context>\n<recent_changes>\n+fn b\n</recent_changes>\n\n</context>\n<user_request>\nGenerate commit message\n</user_request>"
    );
    let step = commit_message_written(text("Rename a to b"), true);
    assert_eq!(said(&step), words(&["Generated commit message:\nRename a to b"]));
    assert!(matches!(
        job(step),
        Job::DescribeCommit { message, after_edit: true } if message == "Rename a to b"
    ));
    let step = commit_described(true);
    assert_eq!(said(&step), words(&["Request processed successfully."]));
    assert!(finished(&step));
    assert_eq!(repl.session.exchanges.len(), 2);
}

#[test]
fn a_direct_request_goes_to_the_editing_model_with_history() {
    let mut repl = repl_with_file();
    repl.session.exchanges.push(Exchange::HumanMessage(text("before")));
    let direct = Commands::Implementer { request: words(&["fix", "the bug"]) };
    let edit = match job(repl.process_input("implementer fix 'the bug'", Some(direct))) {
        Job::Describe { edit } => edit,
        other => panic!("{other:?}"),
    };
    assert_eq!(edit.kind, EditKind::Implementer);
    assert_eq!(edit.text, "fix the bug");
    let purpose = match job(repl.described(edit)) {
        Job::Gather { purpose, with_diff: false, .. } => purpose,
        other => panic!("{other:?}"),
    };
    let completion = match job(repl.gathered(purpose, vec![], vec![], None)) {
        Job::Send { completion } => completion,
        other => panic!("{other:?}"),
    };
    assert_eq!(
        completion.messages[1].content,
        "<previous_messages>\n<user>before</user>\n</previous_messages>\n<context>\n</context>\n<user_request>\nfix the bug\n</user_request>"
    );
}

#[test]
fn tools_that_do_not_exist_fail_the_input() {
    let repl = repl_with_file();
    let edit = reasoner::job::EditRequest { kind: EditKind::Implementer, text: text("x") };
    let completion = match job(repl.gathered(Purpose::Edit(edit), vec![], vec![], None)) {
        Job::Send { completion } => completion,
        other => panic!("{other:?}"),
    };
    let calls = vec![ToolCall { name: text("browser"), id: text("1"), input: text("{}") }];
    let step = replied(completion, text("b"), calls);
    assert_eq!(said(&step), words(&["b"]));
    assert_eq!(error(step).message(), "unknown tool: browser");
}

#[test]
fn models_that_are_missing_fail_the_input() {
    let mut repl = Repl::new(
        RSession::start(),
        LLMClientConfig { models: ModelTable::new(), providers: vec![] },
    );
    let edit = reasoner::job::EditRequest { kind: EditKind::Architect, text: text("x") };
    let step = repl.gathered(Purpose::Edit(edit), vec![], vec![], None);
    assert_eq!(error(step).message(), "model O3MiniHigh not configure");
    let edit = reasoner::job::EditRequest { kind: EditKind::Implementer, text: text("x") };
    let step = repl.gathered(Purpose::Edit(edit), vec![], vec![], None);
    assert_eq!(error(step).message(), "model ClaudeSonnet not configure");
    let purpose = Purpose::Knowledge { title: text("t"), text: text("x") };
    let step = repl.gathered(purpose, vec![], vec![], None);
    assert_eq!(error(step).message(), "O3MiniHigh model not configured");
    let step = repl.commit_diff_read(text("+x"), false);
    assert!(matches!(
        error(step),
        ReplError::Config(ConfigError::ModelNotConfigured(LLMType::O3MiniHigh))
    ));
    let request = reasoner::context::HumanMessage { user_request: text("q"), context: vec![] };
    let step = repl.planned(request, text("plan"));
    assert_eq!(error(step).message(), "model ClaudeSonnet not configure");
    assert_eq!(repl.session.exchanges.len(), 2);
    assert_eq!(ReplError::Outside(text("no network")).message(), "no network");
    assert_eq!(
        ReplError::Agent(AgentError::InvalidToolInput).message(),
        "the input of a tool call is not JSON"
    );
}

#[test]
fn a_diff_that_cannot_be_had_fails_the_input() {
    let repl = repl_with_file();
    let edit = reasoner::job::EditRequest { kind: EditKind::Architect, text: text("x") };
    let files = vec![FileRead { path: text("b"), outcome: ReadOutcome::Failed(text("gone")) }];
    let diff = Some(ReadOutcome::Failed(text("no repository")));
    let step = repl.gathered(Purpose::Edit(edit), files, vec![], diff);
    assert_eq!(said(&step), words(&["! Error reading file b: gone"]));
    assert_eq!(error(step).message(), "no repository");
}

#[test]
fn knowledge_is_created_saved_and_loaded() {
    let mut repl = repl();
    let create =
        Commands::CreateKnowledge { title: text("api"), request: words(&["the", "api"]) };
    let purpose = match job(repl.process_input("create-knowledge api the api", Some(create))) {
        Job::Gather { purpose, paths, .. } => {
            assert!(paths.is_empty());
            purpose
        }
        other => panic!("{other:?}"),
    };
    let (title, completion) = match job(repl.gathered(purpose, vec![], vec![], None)) {
        Job::WriteKnowledge { title, completion } => (title, completion),
        other => panic!("{other:?}"),
    };
    assert!(completion.messages[1].content.ends_with("<user_request>\nthe api\n</user_request>"));
    let title = match job(knowledge_written(title, text("\n# API\n\n"))) {
        Job::SaveKnowledge { title, file_name, content } => {
            assert_eq!(file_name, "api.md");
            assert_eq!(content, "# API");
            title
        }
        other => panic!("{other:?}"),
    };
    let step = repl.knowledge_saved(title);
    assert_eq!(said(&step), words(&["Created and loaded knowledge file: api"]));
    repl.knowledge_saved(text("api"));
    assert_eq!(repl.loaded_knowledge, words(&["api"]));
}

#[test]
fn without_changes_nothing_is_described() {
    let mut repl = repl();
    let step = repl.process_input("commit-message", Some(Commands::CommitMessage));
    assert!(matches!(job(step), Job::ReadCommitDiff { after_edit: false }));
    let step = repl.commit_diff_read(text("\n"), false);
    assert_eq!(said(&step), words(&["No changes found in git diff."]));
    assert!(finished(&step));
    let step = repl.commit_diff_read(text(""), true);
    assert_eq!(
        said(&step),
        words(&["No changes found in git diff.", "Request processed successfully."])
    );
    let step = commit_described(false);
    assert!(said(&step).is_empty());
    assert!(finished(&step));
}

#[test]
fn a_command_is_followed_to_its_end() {
    let mut repl = repl();
    let run = Commands::Run { command: words(&["cargo", "test"]) };
    let command = match job(repl.process_input("run cargo test", Some(run))) {
        Job::Start { command } => command,
        other => panic!("{other:?}"),
    };
    let run = match job(command_started(command)) {
        Job::Follow { run } => run,
        other => panic!("{other:?}"),
    };
    let step = command_heard(run, Stream::Stdout, Some(text("running")));
    assert_eq!(said(&step), words(&["running"]));
    let run = match job(step) {
        Job::Follow { run } => run,
        other => panic!("{other:?}"),
    };
    let step = command_heard(run, Stream::Stdout, None);
    assert!(said(&step).is_empty());
    let run = match job(step) {
        Job::Follow { run } => run,
        other => panic!("{other:?}"),
    };
    assert!(run.stdout_done && !run.stderr_done);
    let step = command_heard(run, Stream::Stderr, Some(text("warning")));
    assert_eq!(said(&step), words(&["! warning"]));
    let run = match job(step) {
        Job::Follow { run } => run,
        other => panic!("{other:?}"),
    };
    let run = match job(command_heard(run, Stream::Stderr, None)) {
        Job::Wait { run } => run,
        other => panic!("{other:?}"),
    };
    let step = repl.command_exited(run, CommandExit::Code { code: 101 });
    assert_eq!(
        said(&step),
        words(&[
            "Command exited with non-zero exit code: 101",
            "Command output added to context"
        ])
    );
    match &repl.pending_command_contexts[..] {
        [RContext::Command { command, output }] => {
            assert_eq!(command, "cargo test");
            assert_eq!(
                output,
                "running\nwarning\nCommand exited with non-zero exit code: 101\n"
            );
        }
        other => panic!("{other:?}"),
    }
    let purpose = Purpose::Knowledge { title: text("t"), text: text("x") };
    let completion = match job(repl.gathered(purpose, vec![], vec![], None)) {
        Job::WriteKnowledge { completion, .. } => completion,
        other => panic!("{other:?}"),
    };
    assert!(completion.messages[1].content.contains("<command line=\"cargo test\">\nrunning\n"));
}

#[test]
fn commands_end_in_three_ways() {
    assert_eq!(
        CommandExit::Success { status: text("exit status: 0") }.message(),
        "Command exited with status: exit status: 0"
    );
    assert_eq!(
        CommandExit::Code { code: -1 }.message(),
        "Command exited with non-zero exit code: -1"
    );
    assert_eq!(CommandExit::Signal.message(), "Command terminated by signal");
}

#[test]
fn a_command_needs_words() {
    let mut repl = repl();
    let step = repl.process_input("run", Some(Commands::Run { command: vec![] }));
    assert_eq!(said(&step), words(&["No command provided."]));
    let step = repl.process_input("exec", Some(Commands::Exec { command: vec![] }));
    assert_eq!(said(&step), words(&["No command provided."]));
}

#[test]
fn programs_are_run_with_their_arguments() {
    let mut repl = repl();
    let exec = Commands::Exec { command: words(&["git", "log", "-1"]) };
    match job(repl.process_input("exec git log -1", Some(exec))) {
        Job::Exec { program, args } => {
            assert_eq!(program, "git");
            assert_eq!(args, words(&["log", "-1"]));
        }
        other => panic!("{other:?}"),
    }
    let jj = Commands::Jj { args: words(&["log"]) };
    assert!(matches!(
        job(repl.process_input("jj log", Some(jj))),
        Job::Jj { args } if args == words(&["log"])
    ));
    assert!(matches!(job(repl.process_input("help", Some(Commands::Help))), Job::PrintHelp));
    let step = done();
    assert!(finished(&step) && said(&step).is_empty());
}

#[test]
fn a_diff_is_shown_or_fails_softly() {
    let mut repl = repl();
    assert!(matches!(job(repl.process_input("diff", Some(Commands::Diff))), Job::ShowDiff));
    let step = diff_shown(None);
    assert!(finished(&step) && said(&step).is_empty());
    let step = diff_shown(Some(text("no repo")));
    assert_eq!(said(&step), words(&["! Error running diff: no repo"]));
    assert!(finished(&step));
}

#[test]
fn restoring_clears_the_history_if_it_succeeds() {
    let mut repl = repl_with_file();
    repl.session.exchanges.push(Exchange::Response(text("r")));
    assert!(matches!(job(repl.process_input("restore", Some(Commands::Restore))), Job::Restore));
    let step = repl.restored(Some(text("locked")));
    assert_eq!(said(&step), words(&["! Error running restore: locked"]));
    assert_eq!(repl.session.exchanges.len(), 1);
    let step = repl.restored(None);
    assert_eq!(said(&step), words(&["Agent restored and exchange history cleared."]));
    assert!(repl.session.exchanges.is_empty());
    assert_eq!(repl.pending_file_paths.len(), 1);
}

#[test]
fn an_exit_is_told_by_success_and_code() {
    let status = "exit status: 0";
    assert_eq!(
        exit_of(true, Some(0), text(status)).message(),
        "Command exited with status: exit status: 0"
    );
    assert_eq!(
        exit_of(false, Some(2), text("exit status: 2")).message(),
        "Command exited with non-zero exit code: 2"
    );
    assert_eq!(
        exit_of(false, None, text("signal: 9 (SIGKILL)")).message(),
        "Command terminated by signal"
    );
}

/// Runs an input to its end on the given outcomes, and gives back what was said and
/// how it ended.
fn run_input(
    repl: &mut Repl,
    line: &str,
    command: Option<Commands>,
    outcomes: Vec<Outcome>,
) -> (Vec<String>, Next) {
    let mut step = repl.process_input(line, command);
    let mut lines = said(&step);
    for outcome in outcomes {
        step = repl.resume(job(step), outcome);
        lines.extend(said(&step));
    }
    (lines, step.next)
}

fn call(name: &str, id: &str) -> ToolCall {
    ToolCall { name: text(name), id: text(id), input: text("{}") }
}

fn reading(paths: &[&str], diff: Option<&str>) -> Outcome {
    let files = paths.iter().map(|path| FileRead {
        path: path.to_string(),
        outcome: ReadOutcome::Text(text("fn a() {}")),
    });
    Outcome::Gathered {
        files: files.collect(),
        knowledge: vec![],
        diff: diff.map(|printed| ReadOutcome::Text(text(printed))),
    }
}

fn unexpected(next: &Next) -> bool {
    matches!(next, Next::Failed(ReplError::UnexpectedOutcome))
}

#[test]
fn a_whole_edit_runs_on_its_outcomes() {
    let mut repl = repl();
    let add = Commands::Add { file_path: text("a.rs") };
    let (lines, _) =
        run_input(&mut repl, "add a.rs", Some(add), vec![Outcome::FileChecked { exists: true }]);
    assert_eq!(lines, words(&["Added file to pending context: a.rs"]));
    let (lines, next) = run_input(
        &mut repl,
        "rename a",
        None,
        vec![
            Outcome::Described,
            reading(&["a.rs"], None),
            Outcome::Planned { text: text("1. rename") },
            Outcome::Replied {
                text: text("editing"),
                calls: vec![call("str_replace_editor", "1"), call("str_replace_editor", "2")],
            },
            Outcome::Observed { text: text("one") },
            Outcome::Observed { text: text("two") },
            Outcome::Replied {
                text: text("finishing"),
                calls: vec![call("attempt_completion", "3")],
            },
            Outcome::Recorded,
            Outcome::CommitDiffRead { text: text("+b") },
            Outcome::CommitMessageWritten { text: text("Rename a") },
            Outcome::CommitDescribed,
        ],
    );
    assert_eq!(
        lines,
        words(&[
            "editing",
            "finishing",
            "done",
            "Generated commit message:\nRename a",
            "Request processed successfully."
        ])
    );
    assert!(matches!(next, Next::Finished { exit: false }));
    assert_eq!(repl.session.exchanges.len(), 2);
}

#[test]
fn a_direct_edit_needs_no_plan() {
    let mut repl = repl_with_file();
    let (lines, next) = run_input(
        &mut repl,
        "implementer x",
        Some(Commands::Implementer { request: words(&["x"]) }),
        vec![
            Outcome::Described,
            reading(&["a.rs"], None),
            Outcome::Replied { text: text("nothing to do"), calls: vec![] },
            Outcome::Recorded,
            Outcome::CommitDiffRead { text: text("") },
        ],
    );
    assert_eq!(
        lines,
        words(&[
            "nothing to do",
            "No changes found in git diff.",
            "Request processed successfully."
        ])
    );
    assert!(matches!(next, Next::Finished { exit: false }));
    assert!(repl.session.exchanges.is_empty());
}

#[test]
fn knowledge_runs_on_its_outcomes() {
    let mut repl = repl();
    let create = Commands::CreateKnowledge { title: text("api"), request: words(&["x"]) };
    let (lines, _) = run_input(
        &mut repl,
        "create-knowledge api x",
        Some(create),
        vec![
            reading(&[], None),
            Outcome::KnowledgeWritten { text: text("# API\n") },
            Outcome::KnowledgeSaved,
        ],
    );
    assert_eq!(lines, words(&["Created and loaded knowledge file: api"]));
    let load = Commands::LoadKnowledge { title: text("api") };
    let (lines, _) = run_input(
        &mut repl,
        "load-knowledge api",
        Some(load),
        vec![Outcome::KnowledgeChecked { exists: true }],
    );
    assert_eq!(lines, words(&["Knowledge file already loaded: api"]));
    assert_eq!(repl.loaded_knowledge, words(&["api"]));
}

#[test]
fn commands_run_on_their_outcomes() {
    let mut repl = repl();
    let heard = |stream: Stream, line: Option<&str>| Outcome::CommandHeard {
        stream,
        line: line.map(|line| line.to_string()),
    };
    let (lines, _) = run_input(
        &mut repl,
        "run ls",
        Some(Commands::Run { command: words(&["ls"]) }),
        vec![
            Outcome::CommandStarted,
            heard(Stream::Stdout, Some("a")),
            heard(Stream::Stderr, None),
            heard(Stream::Stdout, Some("b")),
            heard(Stream::Stdout, None),
            Outcome::CommandExited { exit: CommandExit::Signal },
        ],
    );
    assert_eq!(
        lines,
        words(&["a", "b", "Command terminated by signal", "Command output added to context"])
    );
    run_input(
        &mut repl,
        "run pwd",
        Some(Commands::Run { command: words(&["pwd"]) }),
        vec![
            Outcome::CommandStarted,
            heard(Stream::Stdout, None),
            heard(Stream::Stderr, None),
            Outcome::CommandExited { exit: CommandExit::Code { code: 1 } },
        ],
    );
    let purpose = Purpose::Knowledge { title: text("t"), text: text("x") };
    let completion = match job(repl.gathered(purpose, vec![], vec![], None)) {
        Job::WriteKnowledge { completion, .. } => completion,
        other => panic!("{other:?}"),
    };
    assert!(completion.messages[1].content.starts_with(
        "<context>\n<command line=\"ls\">\na\nb\nCommand terminated by signal\n</command>\n<command line=\"pwd\">\nCommand exited"
    ));
}

#[test]
fn what_is_done_silently_ends_the_input() {
    let mut repl = repl();
    repl.session.exchanges.push(Exchange::Response(text("r")));
    let silent = vec![
        (Commands::Help, Outcome::HelpPrinted),
        (Commands::Exec { command: words(&["ls"]) }, Outcome::ProgramRun),
        (Commands::Jj { args: words(&["log"]) }, Outcome::JjRun),
        (Commands::Diff, Outcome::DiffShown),
    ];
    for (command, outcome) in silent {
        let (lines, next) = run_input(&mut repl, "x", Some(command), vec![outcome]);
        assert!(lines.is_empty());
        assert!(matches!(next, Next::Finished { exit: false }));
    }
    let (lines, _) =
        run_input(&mut repl, "restore", Some(Commands::Restore), vec![Outcome::Restored]);
    assert_eq!(lines, words(&["Agent restored and exchange history cleared."]));
    assert!(repl.session.exchanges.is_empty());
}

#[test]
fn failed_jobs_fail_the_input_and_change_nothing() {
    let mut repl = repl_with_file();
    repl.session.exchanges.push(Exchange::Response(text("r")));
    let failed = || Outcome::Failed { error: text("broken") };
    let (lines, next) =
        run_input(&mut repl, "x", None, vec![Outcome::Described, reading(&["a.rs"], None), failed()]);
    assert!(lines.is_empty());
    assert!(matches!(next, Next::Failed(ReplError::Outside(error)) if error == "broken"));
    assert_eq!(repl.session.exchanges.len(), 1);
    let (lines, next) = run_input(&mut repl, "restore", Some(Commands::Restore), vec![failed()]);
    assert_eq!(lines, words(&["! Error running restore: broken"]));
    assert!(matches!(next, Next::Finished { exit: false }));
    assert_eq!(repl.session.exchanges.len(), 1);
    let (lines, _) = run_input(&mut repl, "diff", Some(Commands::Diff), vec![failed()]);
    assert_eq!(lines, words(&["! Error running diff: broken"]));
}

#[test]
fn an_outcome_of_another_job_fails_the_input() {
    let mut repl = repl();
    let (lines, next) =
        run_input(&mut repl, "help", Some(Commands::Help), vec![Outcome::Restored]);
    assert!(lines.is_empty());
    match next {
        Next::Failed(error) => {
            assert_eq!(error.message(), "the outcome does not belong to the job");
        }
        other => panic!("{other:?}"),
    }
}

#[test]
fn wanted_changes_are_carried_by_the_request() {
    let mut repl = repl_with_file();
    repl.process_input("x", Some(Commands::IncludeRecentChanges));
    let outcomes = vec![Outcome::Described, reading(&["a.rs"], Some("+1\n"))];
    let (_, next) = run_input(&mut repl, "go", None, outcomes);
    match next {
        Next::Await(Job::Plan { request, completion }) => {
            assert!(matches!(
                request.context.last(),
                Some(RContext::RecentChanges { diff }) if diff == "+1\n"
            ));
            assert!(completion.messages[1].content.contains("<recent_changes>\n+1\n"));
        }
        other => panic!("{other:?}"),
    }
    let outcomes = vec![Outcome::Described, reading(&["a.rs"], Some(" \n"))];
    let (_, next) = run_input(&mut repl, "go", None, outcomes);
    match next {
        Next::Await(Job::Plan { request, .. }) => assert_eq!(request.context.len(), 1),
        other => panic!("{other:?}"),
    }
}

#[test]
fn context_that_was_not_asked_for_fails_the_input() {
    let mut repl = repl_with_file();
    let wrong = vec![
        reading(&["a.rs"], Some("+1\n")),
        reading(&[], None),
        reading(&["b.rs"], None),
        reading(&["a.rs", "b.rs"], None),
        Outcome::Gathered {
            files: vec![FileRead { path: text("a.rs"), outcome: ReadOutcome::Text(text("")) }],
            knowledge: vec![KnowledgeRead { title: text("api"), outcome: None }],
            diff: None,
        },
    ];
    for outcome in wrong {
        let (_, next) = run_input(&mut repl, "go", None, vec![Outcome::Described, outcome]);
        assert!(unexpected(&next));
    }
    repl.process_input("x", Some(Commands::IncludeRecentChanges));
    let outcomes = vec![Outcome::Described, reading(&["a.rs"], None)];
    let (_, next) = run_input(&mut repl, "go", None, outcomes);
    assert!(unexpected(&next));
}

#[test]
fn a_stream_that_has_ended_is_not_heard() {
    let mut repl = repl();
    let outcomes = vec![
        Outcome::CommandStarted,
        Outcome::CommandHeard { stream: Stream::Stdout, line: None },
        Outcome::CommandHeard { stream: Stream::Stdout, line: Some(text("late")) },
    ];
    let run = Commands::Run { command: words(&["ls"]) };
    let (lines, next) = run_input(&mut repl, "run ls", Some(run), outcomes);
    assert!(lines.is_empty());
    assert!(unexpected(&next));
    assert!(repl.pending_command_contexts.is_empty());
}

#[test]
fn knowledge_that_was_loaded_twice_is_unloaded_once() {
    let mut repl = repl();
    repl.loaded_knowledge = words(&["api", "style", "api"]);
    let unload = Commands::UnloadKnowledge { title: text("api") };
    repl.process_input("unload-knowledge api", Some(unload));
    assert_eq!(repl.loaded_knowledge, words(&["style", "api"]));
}
