use reasoner::context::{Exchange, HumanMessage, RContext};
use reasoner::message::{CompletionRequest, Role, ToolSchema};
use reasoner::models::{ConfigError, LLMClientConfig, LLMType, ModelTable};
use reasoner::reasoner::Reasoner;
use reasoner::session::{
    RSession, COMMIT_PROMPT, DEVELOPER_PROMPT, IMPLEMENTER_PROMPT, KNOWLEDGE_PROMPT,
};
use std::sync::Arc;

fn text(s: &str) -> String {
    s.to_string()
}

fn config() -> LLMClientConfig {
    LLMClientConfig::from_api_keys(text("o"), text("a"), None)
}

fn no_models() -> LLMClientConfig {
    LLMClientConfig { models: ModelTable::new(), providers: vec![] }
}

fn request(words: &str) -> HumanMessage {
    HumanMessage {
        user_request: text(words),
        context: vec![
            RContext::File { path: text("a.rs"), text: text("fn a() {}\n") },
            RContext::MultiBuf { title: text("refs"), excerpts: vec![] },
        ],
    }
}

const CONTEXT: &str = "<context>\n<file path=\"a.rs\">\nfn a() {}\n</file>\n\n<excerpts title=\"refs\">\n</excerpts>\n</context>\n";

fn session() -> RSession {
    let mut session = RSession::start();
    session.exchanges.push(Exchange::HumanMessage(text("hello")));
    session.exchanges.push(Exchange::Response(text("a plan\nof two lines")));
    session
}

fn contents(request: &CompletionRequest) -> Vec<&str> {
    request.messages.iter().map(|message| message.content.as_str()).collect()
}

#[test]
fn a_session_starts_without_history() {
    let first = RSession::start();
    let second = RSession::start();
    assert_eq!(first.repo_root, ".");
    assert!(first.exchanges.is_empty());
    assert_ne!(first.id, second.id);
    assert_eq!(first.id.get_version_num(), 4);
}

#[test]
fn the_planning_model_is_told_its_task() {
    let message = RSession::developer_message();
    assert_eq!(message.role, Role::System);
    assert_eq!(message.content, DEVELOPER_PROMPT);
    assert!(message.content.starts_with("You are a senior software engineer, expert planner"));
    assert!(message.content.ends_with("- Feel free to refactor existing code."));
    assert_eq!(message.content.lines().count(), 11);
    assert!(message.tools.is_empty());
    assert!(!message.cache_point);
}

#[test]
fn the_editing_model_is_offered_its_tools() {
    let message = RSession::implementer_system();
    assert_eq!(message.role, Role::System);
    assert_eq!(message.content, "You are an expert software engineer.");
    assert_eq!(message.tools, vec![ToolSchema::CodeEditor, ToolSchema::AttemptCompletion]);
}

#[test]
fn a_prompt_holds_history_context_and_request() {
    let message = session().build_user_message(&request("do it"), true);
    assert_eq!(message.role, Role::User);
    assert_eq!(
        message.content,
        format!(
            "<previous_messages>\n<user>hello</user>\n<assistant>a plan\nof two lines</assistant>\n</previous_messages>\n{CONTEXT}<user_request>\ndo it\n</user_request>"
        )
    );
}

#[test]
fn a_prompt_without_history_is_the_same_in_every_session() {
    let with = session().build_user_message(&request("do it"), false);
    let without = RSession::start().build_user_message(&request("do it"), false);
    let wanted = RSession::start().build_user_message(&request("do it"), true);
    assert_eq!(with.content, format!("{CONTEXT}<user_request>\ndo it\n</user_request>"));
    assert_eq!(with.content, without.content);
    assert_eq!(without.content, wanted.content);
}

#[test]
fn a_request_without_context_has_an_empty_block() {
    let message = RSession::start()
        .build_user_message(&HumanMessage { user_request: text(" x "), context: vec![] }, true);
    assert_eq!(message.content, "<context>\n</context>\n<user_request>\n x \n</user_request>");
}

#[test]
fn knowledge_is_asked_for_with_its_context() {
    let found = session().create_knowledge(&request("describe a"), &config()).unwrap();
    assert_eq!(found.model.llm, LLMType::O3MiniHigh);
    assert_eq!(found.temperature_percent, 60);
    assert_eq!(found.max_tokens, None);
    assert_eq!(
        contents(&found),
        vec![
            KNOWLEDGE_PROMPT,
            "<context>\n<file path=\"a.rs\">\nfn a() {}\n</file>\n<excerpts title=\"refs\">\n</excerpts>\n<user_request>\ndescribe a\n</user_request>"
        ]
    );
    assert_eq!(found.messages[0].role, Role::System);
    assert_eq!(found.messages[1].role, Role::User);
}

#[test]
fn a_commit_message_is_asked_for_without_history() {
    let found = session().generate_commit_message(&request("message"), &config()).unwrap();
    assert_eq!(found.model.llm, LLMType::O3MiniHigh);
    assert_eq!(
        contents(&found),
        vec![
            COMMIT_PROMPT,
            format!("{CONTEXT}<user_request>\nmessage\n</user_request>").as_str()
        ]
    );
}

#[test]
fn a_plan_is_asked_for_with_history() {
    let session = session();
    let found = session.architect_editting(&request("plan"), &config()).unwrap();
    assert_eq!(found.model.llm, LLMType::O3MiniHigh);
    assert_eq!(found.temperature_percent, 60);
    assert_eq!(found.max_tokens, Some(20480));
    assert_eq!(
        contents(&found),
        vec![
            DEVELOPER_PROMPT,
            session.build_user_message(&request("plan"), true).content.as_str()
        ]
    );
    assert!(found.messages.iter().all(|message| !message.cache_point));
}

#[test]
fn a_plan_becomes_history_and_goes_to_the_editing_model() {
    let mut session = session();
    let id = session.id;
    let found = session.take_plan(request("plan"), text("1. edit"), &config()).unwrap();
    assert_eq!(session.id, id);
    assert_eq!(session.exchanges.len(), 4);
    assert!(matches!(&session.exchanges[2], Exchange::HumanMessage(words) if words == "plan"));
    assert!(matches!(&session.exchanges[3], Exchange::Response(words) if words == "1. edit"));
    assert_eq!(found.model.llm, LLMType::ClaudeSonnet);
    assert_eq!(found.temperature_percent, 0);
    assert_eq!(
        contents(&found),
        vec![
            IMPLEMENTER_PROMPT,
            format!("{CONTEXT}<user_request>\n1. edit\n</user_request>").as_str()
        ]
    );
    assert!(!found.messages[0].cache_point);
    assert!(found.messages[1].cache_point);
    let next = session.build_user_message(&request("more"), true);
    assert!(next.content.contains(
        "</assistant>\n<user>plan</user>\n<assistant>1. edit</assistant>\n</previous_messages>\n"
    ));
}

#[test]
fn a_plan_becomes_history_even_if_nobody_can_edit() {
    let mut session = RSession::start();
    let error = session.take_plan(request("plan"), text("1. edit"), &no_models()).unwrap_err();
    assert_eq!(error, ConfigError::ModelNotConfigured(LLMType::ClaudeSonnet));
    assert_eq!(session.exchanges.len(), 2);
}

#[test]
fn the_editing_model_can_be_asked_directly() {
    let session = session();
    let found = session.implementer(&request("edit"), &config(), true).unwrap();
    assert_eq!(
        contents(&found),
        vec![
            IMPLEMENTER_PROMPT,
            session.build_user_message(&request("edit"), true).content.as_str()
        ]
    );
    assert_eq!(session.exchanges.len(), 2);
}

#[test]
fn requests_fail_without_their_models() {
    let session = RSession::start();
    let planner = ConfigError::ModelNotConfigured(LLMType::O3MiniHigh);
    let editor = ConfigError::ModelNotConfigured(LLMType::ClaudeSonnet);
    assert_eq!(session.create_knowledge(&request("x"), &no_models()).unwrap_err(), planner);
    assert_eq!(session.generate_commit_message(&request("x"), &no_models()).unwrap_err(), planner);
    assert_eq!(session.architect_editting(&request("x"), &no_models()).unwrap_err(), planner);
    assert_eq!(session.implementer(&request("x"), &no_models(), false).unwrap_err(), editor);
}

#[test]
fn a_reasoner_shares_its_tools() {
    let tools = Arc::new(text("tools"));
    let reasoner = Reasoner::new(tools.clone());
    assert_eq!(Arc::strong_count(&tools), 2);
    drop(reasoner);
    assert_eq!(Arc::strong_count(&tools), 1);
}
