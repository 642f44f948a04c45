use reasoner::agent::{close_round, take_observation, take_reply, AgentError, AgentStep, ToolRound};
use reasoner::message::{
    refresh_cache_points, CompletionRequest, Message, Role, ToolCall, MAX_CACHE_POINTS,
};
use reasoner::models::{LLMClientConfig, LLMType};

fn text(s: &str) -> String {
    s.to_string()
}

fn request(messages: Vec<Message>) -> CompletionRequest {
    let config = LLMClientConfig::from_api_keys(text("o"), text("a"), None);
    CompletionRequest {
        model: config.config_for_llm(LLMType::ClaudeSonnet).unwrap(),
        messages,
        temperature_percent: 0,
        max_tokens: None,
    }
}

fn call(name: &str, id: &str, input: &str) -> ToolCall {
    ToolCall { name: text(name), id: text(id), input: text(input) }
}

fn opening() -> Vec<Message> {
    vec![Message::plain(Role::System, text("system")), Message::plain(Role::User, text("do it"))]
}

fn marks(messages: &[Message]) -> Vec<bool> {
    messages.iter().map(|message| message.cache_point).collect()
}

fn marked(flags: &[bool]) -> Vec<Message> {
    flags
        .iter()
        .map(|flag| {
            let mut message = Message::plain(Role::User, text("m"));
            message.cache_point = *flag;
            message
        })
        .collect()
}

#[test]
fn the_last_message_gets_a_cache_point() {
    let mut messages = opening();
    refresh_cache_points(&mut messages);
    assert_eq!(marks(&messages), vec![false, true]);
    assert_eq!(messages[1].content, "do it");
}

#[test]
fn four_cache_points_are_kept() {
    let mut messages = marked(&[true, false, true, true, false]);
    refresh_cache_points(&mut messages);
    assert_eq!(marks(&messages), vec![true, false, true, true, true]);
}

#[test]
fn the_oldest_cache_points_go() {
    let mut messages = marked(&[true, true, false, true, true, true, false]);
    refresh_cache_points(&mut messages);
    assert_eq!(marks(&messages), vec![false, false, false, true, true, true, true]);
    let kept = marks(&messages).into_iter().filter(|mark| *mark).count();
    assert_eq!(kept, MAX_CACHE_POINTS);
}

#[test]
fn refreshing_again_changes_no_cache_point() {
    let mut messages = marked(&[true, true, true, true, true, true]);
    refresh_cache_points(&mut messages);
    let once = marks(&messages);
    refresh_cache_points(&mut messages);
    assert_eq!(marks(&messages), once);
    assert_eq!(once, vec![false, false, true, true, true, true]);
}

#[test]
fn a_reply_without_calls_finishes() {
    let (printed, step) = take_reply(request(opening()), text("all good"), vec![]);
    assert_eq!(printed, vec!["all good"]);
    assert!(matches!(step, AgentStep::Finished));
}

#[test]
fn a_call_for_completion_finishes() {
    let calls = vec![call("attempt_completion", "1", "{}"), call("str_replace_editor", "2", "{}")];
    let (printed, step) = take_reply(request(opening()), text("body"), calls);
    assert_eq!(printed, vec!["body", "done"]);
    assert!(matches!(step, AgentStep::Finished));
}

#[test]
fn an_unknown_tool_fails() {
    let calls = vec![call("rm", "1", "{}")];
    let (printed, step) = take_reply(request(opening()), text("body"), calls);
    assert_eq!(printed, vec!["body"]);
    match step {
        AgentStep::Failed(AgentError::UnknownTool(name)) => assert_eq!(name, "rm"),
        other => panic!("{other:?}"),
    }
}

#[test]
fn an_unknown_tool_fails_after_the_calls_before_it() {
    let calls = vec![call("str_replace_editor", "1", "{}"), call("rm", "2", "{}")];
    let (_, step) = take_reply(request(opening()), text("body"), calls);
    let round = match step {
        AgentStep::Edit(round) => round,
        other => panic!("{other:?}"),
    };
    let (printed, step) = take_observation(round, text("viewed"));
    assert!(printed.is_empty());
    assert!(matches!(step, AgentStep::Failed(AgentError::UnknownTool(_))));
}

#[test]
fn a_round_of_edits_becomes_part_of_the_conversation() {
    let calls = vec![
        call("str_replace_editor", "id1", "{\"command\":\"view\"}"),
        call("str_replace_editor", "id2", " [1, 2] "),
    ];
    let (printed, step) = take_reply(request(opening()), text("thinking"), calls);
    assert_eq!(printed, vec!["thinking"]);
    let round = match step {
        AgentStep::Edit(round) => round,
        other => panic!("{other:?}"),
    };
    assert_eq!(round.body, "thinking");
    assert_eq!(round.calls[round.results.len()].id, "id1");
    let (printed, step) = take_observation(round, text("first"));
    assert!(printed.is_empty());
    let round = match step {
        AgentStep::Edit(round) => round,
        other => panic!("{other:?}"),
    };
    assert_eq!(round.calls[round.results.len()].id, "id2");
    let (printed, step) = take_observation(round, text("second"));
    assert!(printed.is_empty());
    let next = match step {
        AgentStep::Send(next) => next,
        other => panic!("{other:?}"),
    };
    assert_eq!(next.model.llm, LLMType::ClaudeSonnet);
    assert_eq!(next.messages.len(), 4);
    let reply = &next.messages[2];
    assert_eq!(reply.role, Role::Assistant);
    assert_eq!(reply.content, "thinking");
    assert_eq!(reply.tool_uses.len(), 2);
    assert_eq!(reply.tool_uses[0].name, "str_replace_editor");
    assert_eq!(reply.tool_uses[0].id, "id1");
    assert_eq!(reply.tool_uses[0].input["command"], "view");
    assert_eq!(reply.tool_uses[1].input[1], 2);
    let answer = &next.messages[3];
    assert_eq!(answer.role, Role::User);
    assert_eq!(answer.content, "");
    assert_eq!(answer.tool_returns.len(), 2);
    assert_eq!(answer.tool_returns[0].id, "id1");
    assert_eq!(answer.tool_returns[0].name, "str_replace_editor");
    assert_eq!(answer.tool_returns[0].text, "first");
    assert_eq!(answer.tool_returns[1].id, "id2");
    assert_eq!(answer.tool_returns[1].text, "second");
    assert_eq!(marks(&next.messages), vec![false, false, false, true]);
}

#[test]
fn no_more_than_four_cache_points_in_a_long_conversation() {
    let mut messages = opening();
    refresh_cache_points(&mut messages);
    let mut next = request(messages);
    for round in 1..9usize {
        let calls = vec![call("str_replace_editor", "id", "{}")];
        let (_, step) = take_reply(next, text("b"), calls);
        let step = match step {
            AgentStep::Edit(round) => take_observation(round, text("o")).1,
            other => panic!("{other:?}"),
        };
        next = match step {
            AgentStep::Send(next) => next,
            other => panic!("{other:?}"),
        };
        assert_eq!(next.messages.len(), 2 + 2 * round);
        assert!(next.messages.last().unwrap().cache_point);
        let kept = marks(&next.messages).into_iter().filter(|mark| *mark).count();
        assert_eq!(kept, if round < 3 { round + 1 } else { MAX_CACHE_POINTS });
    }
}

#[test]
fn input_that_is_no_json_fails_the_round() {
    let calls = vec![call("str_replace_editor", "1", "{not json")];
    let (_, step) = take_reply(request(opening()), text("b"), calls);
    let step = match step {
        AgentStep::Edit(round) => take_observation(round, text("o")).1,
        other => panic!("{other:?}"),
    };
    assert!(matches!(step, AgentStep::Failed(AgentError::InvalidToolInput)));
}

#[test]
fn a_round_is_closed_with_the_values_of_its_inputs() {
    let round = ToolRound {
        request: request(opening()),
        body: text("b"),
        calls: vec![call("str_replace_editor", "1", "unread")],
        results: vec![],
    };
    let step = close_round(round, vec![Some(serde_json::Value::Bool(true))]);
    match step {
        AgentStep::Send(next) => {
            assert_eq!(next.messages[2].tool_uses[0].input, serde_json::Value::Bool(true));
            assert!(next.messages[3].tool_returns.is_empty());
        }
        other => panic!("{other:?}"),
    }
    let round = ToolRound {
        request: request(opening()),
        body: text("b"),
        calls: vec![call("str_replace_editor", "1", "{}")],
        results: vec![],
    };
    let step = close_round(round, vec![None]);
    assert!(matches!(step, AgentStep::Failed(AgentError::InvalidToolInput)));
}
