use reasoner::context::RContext;
use reasoner::gather::{
    build_human_message, knowledge_file_name, FileRead, KnowledgeRead, ReadOutcome,
};
use reasoner::listing::{list_loaded_knowledge, list_pending_commands, list_pending_files};

fn text(s: &str) -> String {
    s.to_string()
}

fn words(list: &[&str]) -> Vec<String> {
    list.iter().map(|word| word.to_string()).collect()
}

fn command(name: &str) -> RContext {
    RContext::Command { command: text(name), output: text("out\n") }
}

fn diff(printed: &str) -> Option<ReadOutcome> {
    Some(ReadOutcome::Text(text(printed)))
}

fn shown(contexts: &[RContext]) -> Vec<String> {
    contexts.iter().map(|context| format!("{context:?}")).collect()
}

#[test]
fn context_is_gathered_in_order() {
    let files = vec![
        FileRead { path: text("a"), outcome: ReadOutcome::Text(text("A")) },
        FileRead { path: text("b"), outcome: ReadOutcome::Failed(text("denied")) },
        FileRead { path: text("c"), outcome: ReadOutcome::Text(text("C")) },
    ];
    let knowledge = vec![
        KnowledgeRead { title: text("k1"), outcome: None },
        KnowledgeRead { title: text("k2"), outcome: Some(ReadOutcome::Failed(text("not UTF-8"))) },
        KnowledgeRead { title: text("k3"), outcome: Some(ReadOutcome::Text(text("K"))) },
    ];
    let gathered =
        build_human_message(files, knowledge, &vec![command("ls")], diff("+x\n"), text("go"));
    let message = gathered.message.unwrap();
    assert_eq!(message.user_request, "go");
    assert_eq!(
        shown(&message.context),
        shown(&[
            RContext::File { path: text("a"), text: text("A") },
            RContext::File { path: text("c"), text: text("C") },
            RContext::Knowledge { title: text("k3"), text: text("K") },
            command("ls"),
            RContext::RecentChanges { diff: text("+x\n") },
        ])
    );
    assert_eq!(
        gathered.errors,
        words(&["Error reading file b: denied", "Error reading knowledge file k2: not UTF-8"])
    );
}

#[test]
fn a_blank_diff_adds_no_context() {
    let gathered = build_human_message(vec![], vec![], &vec![], diff(" \n"), text("go"));
    assert!(gathered.message.unwrap().context.is_empty());
    assert!(gathered.errors.is_empty());
    let gathered = build_human_message(vec![], vec![], &vec![], None, text("go"));
    assert!(gathered.message.unwrap().context.is_empty());
}

#[test]
fn without_its_diff_there_is_no_request() {
    let files = vec![FileRead { path: text("b"), outcome: ReadOutcome::Failed(text("denied")) }];
    let failed = Some(ReadOutcome::Failed(text("no repository")));
    let gathered = build_human_message(files, vec![], &vec![], failed, text("go"));
    assert_eq!(gathered.message.unwrap_err(), "no repository");
    assert_eq!(gathered.errors, words(&["Error reading file b: denied"]));
}

#[test]
fn knowledge_files_end_in_md() {
    assert_eq!(knowledge_file_name(&text("error handling")), "error handling.md");
}

#[test]
fn pending_files_are_numbered() {
    assert_eq!(list_pending_files(&vec![]), words(&["No pending files."]));
    assert_eq!(
        list_pending_files(&words(&["a.rs", "b.rs"])),
        words(&["\nPending files:", "[0] a.rs", "[1] b.rs"])
    );
    let many: Vec<String> = (0..12).map(|n| format!("f{n}")).collect();
    assert_eq!(list_pending_files(&many)[11], "[10] f10");
}

#[test]
fn pending_commands_keep_their_index() {
    assert_eq!(list_pending_commands(&vec![]), words(&["No command outputs in context."]));
    let contexts =
        vec![command("ls"), RContext::RecentChanges { diff: text("d") }, command("cargo test")];
    assert_eq!(
        list_pending_commands(&contexts),
        words(&["\nPending command outputs:", "[0] Command: ls", "[2] Command: cargo test"])
    );
}

#[test]
fn loaded_knowledge_is_indented() {
    assert_eq!(list_loaded_knowledge(&vec![]), words(&["No knowledge files loaded."]));
    assert_eq!(
        list_loaded_knowledge(&words(&["api", "style"])),
        words(&["\nLoaded knowledge files:", "  api", "  style"])
    );
}
