use reasoner::jj::{
    agent_id, get_diff, random_agent_id, settle_agent_id, workspace_root, JjCommand, AGENT_DIR,
    METADATA_DIR,
};
use reasoner::shell::{argument_list, command_args, complete, completion_query};

fn text(s: &str) -> String {
    s.to_string()
}

fn words(list: &[&str]) -> Vec<String> {
    list.iter().map(|word| word.to_string()).collect()
}

#[test]
fn version_control_commands_have_their_arguments() {
    assert_eq!(JjCommand::WorkspaceRoot.args(), words(&["workspace", "root"]));
    assert_eq!(
        JjCommand::WorkspaceAdd { path: text("/w/a b"), revision: None }.args(),
        words(&["workspace", "add", "/w/a b"])
    );
    assert_eq!(
        JjCommand::WorkspaceAdd { path: text("/w/x"), revision: Some(text("main@origin")) }.args(),
        words(&["workspace", "add", "/w/x", "--revision", "main@origin"])
    );
    assert_eq!(
        JjCommand::WorkspaceForget { agent_id: text("abcd") }.args(),
        words(&["workspace", "forget", "abcd"])
    );
    assert_eq!(JjCommand::Status.args(), words(&["st"]));
    assert_eq!(JjCommand::Diff.args(), words(&["diff"]));
    assert_eq!(JjCommand::GitDiff.args(), words(&["diff", "--git"]));
    assert_eq!(
        JjCommand::Describe { message: text("fix it\n\nnow") }.args(),
        words(&["describe", "-m", "fix it\n\nnow"])
    );
    assert_eq!(JjCommand::Restore.args(), words(&["restore"]));
    assert_eq!(JjCommand::Other { args: words(&["log", "-r", "@"]) }.args(), words(&["log", "-r", "@"]));
}

#[test]
fn a_workspace_root_is_trimmed() {
    assert_eq!(workspace_root("/home/me/my repo\n"), "/home/me/my repo");
    assert_eq!(METADATA_DIR, ".jj");
    assert_eq!(AGENT_DIR, "agent");
}

#[test]
fn a_blank_diff_is_none() {
    assert_eq!(get_diff(text("")), None);
    assert_eq!(get_diff(text(" \n\t\n")), None);
    assert_eq!(get_diff(text("\n+a\n")), Some(text("\n+a\n")));
}

#[test]
fn agents_are_named_by_four_letters() {
    assert_eq!(agent_id(&vec![97, 122, 109, 98]), "azmb");
    let drawn: Vec<String> = (0..50).map(|_| random_agent_id()).collect();
    for id in &drawn {
        assert_eq!(id.len(), 4);
        assert!(id.bytes().all(|byte| byte.is_ascii_lowercase()));
    }
    assert!(drawn.iter().any(|id| id != &drawn[0]));
    assert!(drawn.iter().any(|id| id != "aaaa"));
}

#[test]
fn a_taken_name_is_not_settled_on() {
    assert_eq!(settle_agent_id(text("abcd"), false), Some(text("abcd")));
    assert_eq!(settle_agent_id(text("abcd"), true), None);
}

#[test]
fn a_line_is_split_as_a_shell_would() {
    assert_eq!(command_args("add 'a b.rs' c\\ d"), words(&["reson", "add", "a b.rs", "c d"]));
    assert_eq!(command_args("  fix   the #bug"), words(&["reson", "fix", "the"]));
    assert_eq!(command_args(""), words(&["reson"]));
}

#[test]
fn a_line_with_open_quotes_has_no_words() {
    assert_eq!(command_args("don't split"), words(&["reson"]));
    assert_eq!(argument_list(None), words(&["reson"]));
    assert_eq!(argument_list(Some(words(&["exit"]))), words(&["reson", "exit"]));
}

#[test]
fn the_word_at_the_cursor_is_completed() {
    let query = complete("add sr", 6).unwrap();
    assert_eq!(query.args, words(&["reson", "add", "sr"]));
    assert_eq!((query.index, query.start, query.end), (2, 4, 6));
    let query = complete("add sr", 2).unwrap();
    assert_eq!(query.args, words(&["reson", "ad"]));
    assert_eq!((query.index, query.start, query.end), (1, 0, 2));
}

#[test]
fn a_new_word_is_completed_after_a_space() {
    let query = complete("add ", 4).unwrap();
    assert_eq!(query.args, words(&["reson", "add", ""]));
    assert_eq!((query.index, query.start, query.end), (2, 4, 4));
    let query = complete("", 0).unwrap();
    assert_eq!(query.args, words(&["reson", ""]));
    assert_eq!((query.index, query.start, query.end), (1, 0, 0));
}

#[test]
fn completion_counts_bytes() {
    let query = complete("add héé", 9).unwrap();
    assert_eq!(query.args, words(&["reson", "add", "héé"]));
    assert_eq!((query.start, query.end), (4, 9));
}

#[test]
fn a_quoted_word_replaces_as_many_bytes_as_it_has() {
    let query = complete("add 'a b'", 9).unwrap();
    assert_eq!(query.args, words(&["reson", "add", "a b"]));
    assert_eq!((query.start, query.end), (6, 9));
}

#[test]
fn an_open_quote_leaves_the_program_name_to_complete() {
    assert!(complete("'", 1).is_none());
    assert!(complete("\t", 1).is_none());
    let query = complete("add 'x", 6).unwrap();
    assert_eq!(query.args, words(&["reson"]));
    assert_eq!((query.index, query.start, query.end), (0, 1, 6));
    let query = completion_query(None, "add 'x", 6);
    assert_eq!((query.index, query.start, query.end), (0, 1, 6));
}
