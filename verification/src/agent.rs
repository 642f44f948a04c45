//! The loop in which a model edits code through tool calls: it is sent the
//! conversation, its calls are carried out one by one, and what they gave back is
//! sent with the next request, until the model stops or asks to be done.

use vstd::prelude::*;

use crate::message::{
    cache_points, json_value, parse_json, refresh_cache_points, with_cache_points,
    CompletionRequest, Message, MessageView, RequestView, Role, ToolCall, ToolCallView, ToolReturn,
    ToolReturnView, ToolSchema, ToolUse, ToolUseView, MAX_CACHE_POINTS,
};
use crate::message::{cache_points_stay_within_the_limit, the_newest_cache_points_are_kept};
use crate::text::same_text;

verus! {

impl ToolSchema {
    /// The name by which a model calls the tool.
    pub open spec fn spec_name(self) -> Seq<char> {
        match self {
            ToolSchema::CodeEditor => "str_replace_editor"@,
            ToolSchema::AttemptCompletion => "attempt_completion"@,
        }
    }
}

/// A reply whose tool calls are being carried out: `results` holds what the first
/// of them gave back, and the call after those is the current one.
#[derive(Debug)]
pub struct ToolRound {
    pub request: CompletionRequest,
    pub body: String,
    pub calls: Vec<ToolCall>,
    pub results: Vec<ToolReturn>,
}

/// Why the loop stops without being done.
#[derive(Debug)]
pub enum AgentError {
    /// A call names a tool that does not exist.
    UnknownTool(String),
    /// A call was carried out whose input is not JSON.
    InvalidToolInput,
}

/// What the loop does next.
#[derive(Debug)]
pub enum AgentStep {
    /// Sends a request to the model and waits for its reply.
    Send(CompletionRequest),
    /// Runs the code editor on the current call and waits for what it observes.
    Edit(ToolRound),
    /// Is done.
    Finished,
    /// Stops with an error.
    Failed(AgentError),
}

/// The contents of a [`ToolRound`].
#[verifier::ext_equal]
pub struct RoundView {
    pub request: RequestView,
    pub body: Seq<char>,
    pub calls: Seq<ToolCallView>,
    pub results: Seq<ToolReturnView>,
}

/// The contents of an [`AgentError`].
#[verifier::ext_equal]
pub enum AgentErrorView {
    UnknownTool(Seq<char>),
    InvalidToolInput,
}

/// The contents of an [`AgentStep`].
#[verifier::ext_equal]
pub enum AgentStepView {
    Send(RequestView),
    Edit(RoundView),
    Finished,
    Failed(AgentErrorView),
}

impl View for ToolRound {
    type V = RoundView;

    open spec fn view(&self) -> RoundView {
        RoundView {
            request: self.request@,
            body: self.body@,
            calls: self.calls.deep_view(),
            results: self.results.deep_view(),
        }
    }
}

impl View for AgentError {
    type V = AgentErrorView;

    open spec fn view(&self) -> AgentErrorView {
        match self {
            AgentError::UnknownTool(name) => AgentErrorView::UnknownTool(name@),
            AgentError::InvalidToolInput => AgentErrorView::InvalidToolInput,
        }
    }
}

impl View for AgentStep {
    type V = AgentStepView;

    open spec fn view(&self) -> AgentStepView {
        match self {
            AgentStep::Send(request) => AgentStepView::Send(request@),
            AgentStep::Edit(round) => AgentStepView::Edit(round@),
            AgentStep::Finished => AgentStepView::Finished,
            AgentStep::Failed(error) => AgentStepView::Failed(error@),
        }
    }
}

impl RoundView {
    /// Some call is still to be carried out.
    pub open spec fn waiting(self) -> bool {
        self.results.len() < self.calls.len()
    }

    /// The call that is to be carried out next.
    pub open spec fn current(self) -> ToolCallView {
        self.calls[self.results.len() as int]
    }

    /// The round after the current call gave back `text`.
    pub open spec fn answered(self, text: Seq<char>) -> RoundView {
        RoundView {
            results: self.results.push(
                ToolReturnView { id: self.current().id, name: self.current().name, text },
            ),
            ..self
        }
    }

    /// Each return belongs to the call at its place.
    pub open spec fn paired(self) -> bool {
        &&& self.results.len() <= self.calls.len()
        &&& forall|i: int|
            0 <= i < self.results.len() ==> (#[trigger] self.results[i]).id == self.calls[i].id
                && self.results[i].name == self.calls[i].name
    }
}

/// What the inputs of the calls read as, each by itself.
pub open spec fn read_inputs_of(calls: Seq<ToolCallView>) -> Seq<Option<serde_json::Value>> {
    Seq::new(calls.len(), |i: int| json_value(calls[i].input))
}

/// The calls with the values that their inputs read as, if all of them read.
pub open spec fn tool_uses(
    calls: Seq<ToolCallView>,
    inputs: Seq<Option<serde_json::Value>>,
) -> Option<Seq<ToolUseView>> {
    if forall|i: int| 0 <= i < calls.len() ==> (#[trigger] inputs[i]) is Some {
        Some(
            Seq::new(
                calls.len(),
                |i: int|
                    ToolUseView { name: calls[i].name, id: calls[i].id, input: inputs[i]->0 },
            ),
        )
    } else {
        None
    }
}

/// What is printed and done for the current call of a round.
pub open spec fn dispatch_step(round: RoundView) -> (Seq<Seq<char>>, AgentStepView) {
    let name = round.current().name;
    if name == ToolSchema::CodeEditor.spec_name() {
        (seq![], AgentStepView::Edit(round))
    } else if name == ToolSchema::AttemptCompletion.spec_name() {
        (seq!["done"@], AgentStepView::Finished)
    } else {
        (seq![], AgentStepView::Failed(AgentErrorView::UnknownTool(name)))
    }
}

/// What is printed and done when the model replies with text and tool calls.
pub open spec fn reply_step(
    request: RequestView,
    body: Seq<char>,
    calls: Seq<ToolCallView>,
) -> (Seq<Seq<char>>, AgentStepView) {
    if calls.len() == 0 {
        (seq![body], AgentStepView::Finished)
    } else {
        let (printed, step) = dispatch_step(
            RoundView { request, body, calls, results: Seq::empty() },
        );
        (seq![body] + printed, step)
    }
}

/// The messages that a finished round adds to the conversation: the model's reply
/// with its calls, and what the calls gave back.
pub open spec fn round_messages(
    body: Seq<char>,
    uses: Seq<ToolUseView>,
    results: Seq<ToolReturnView>,
) -> Seq<MessageView> {
    seq![
        MessageView { tool_uses: uses, ..MessageView::plain(Role::Assistant, body) },
        MessageView { tool_returns: results, ..MessageView::plain(Role::User, Seq::empty()) },
    ]
}

/// What is done when every call of a round has been carried out, and their inputs
/// read as `inputs`.
pub open spec fn closing_step(
    round: RoundView,
    inputs: Seq<Option<serde_json::Value>>,
) -> AgentStepView {
    match tool_uses(round.calls, inputs) {
        Some(uses) => AgentStepView::Send(
            RequestView {
                messages: with_cache_points(
                    round.request.messages + round_messages(round.body, uses, round.results),
                ),
                ..round.request
            },
        ),
        None => AgentStepView::Failed(AgentErrorView::InvalidToolInput),
    }
}

/// What is printed and done when the current call of a round gave back `text`.
pub open spec fn observation_step(round: RoundView, text: Seq<char>) -> (
    Seq<Seq<char>>,
    AgentStepView,
) {
    let next = round.answered(text);
    if next.waiting() {
        dispatch_step(next)
    } else {
        (seq![], closing_step(next, read_inputs_of(next.calls)))
    }
}

/// Decides on the current call of a round.
fn dispatch(round: ToolRound) -> (r: (Vec<String>, AgentStep))
    requires
        round@.waiting(),
    ensures
        (r.0.deep_view(), r.1@) == dispatch_step(round@),
{
    let mut printed: Vec<String> = Vec::new();
    let name = round.calls[round.results.len()].name.clone();
    let step = if same_text(&name, "str_replace_editor") {
        AgentStep::Edit(round)
    } else if same_text(&name, "attempt_completion") {
        printed.push("done".to_owned());
        AgentStep::Finished
    } else {
        AgentStep::Failed(AgentError::UnknownTool(name))
    };
    assert(printed.deep_view() =~= dispatch_step(round@).0);
    (printed, step)
}

/// The lines to print and the next step when the model has replied to `request`
/// with `body` and `calls`.
pub fn take_reply(request: CompletionRequest, body: String, calls: Vec<ToolCall>) -> (r: (
    Vec<String>,
    AgentStep,
))
    ensures
        (r.0.deep_view(), r.1@) == reply_step(request@, body@, calls.deep_view()),
{
    let mut printed: Vec<String> = Vec::new();
    printed.push(body.clone());
    assert(printed.deep_view() =~= seq![body@]);
    if calls.len() == 0 {
        return (printed, AgentStep::Finished);
    }
    let round = ToolRound { request, body, calls, results: Vec::new() };
    assert(round@.results =~= Seq::empty());
    let (mut more, step) = dispatch(round);
    let ghost added = more.deep_view();
    printed.append(&mut more);
    assert(printed.deep_view() =~= seq![body@] + added);
    (printed, step)
}

/// Reads the inputs of the calls as JSON.
fn read_inputs(calls: &Vec<ToolCall>) -> (inputs: Vec<Option<serde_json::Value>>)
    ensures
        inputs@ == read_inputs_of(calls.deep_view()),
{
    let mut inputs: Vec<Option<serde_json::Value>> = Vec::new();
    for i in 0..calls.len()
        invariant
            inputs.len() == i,
            forall|j: int| 0 <= j < i ==> inputs[j] == json_value((#[trigger] calls[j]).input@),
    {
        match parse_json(calls[i].input.as_str()) {
            Ok(value) => {
                inputs.push(Some(value));
            },
            Err(_) => {
                inputs.push(None);
            },
        }
    }
    assert(inputs@ =~= read_inputs_of(calls.deep_view()));
    inputs
}

/// Puts the calls and the values of their inputs together.
fn make_tool_uses(calls: &Vec<ToolCall>, inputs: Vec<Option<serde_json::Value>>) -> (r: Option<
    Vec<ToolUse>,
>)
    requires
        inputs.len() == calls.len(),
    ensures
        r.deep_view() == tool_uses(calls.deep_view(), inputs@),
{
    let mut uses: Vec<ToolUse> = Vec::new();
    let mut i: usize = 0;
    for input in iter: inputs
        invariant
            i == iter.index(),
            iter.seq() == inputs@,
            inputs.len() == calls.len(),
            uses.len() == i,
            forall|j: int|
                0 <= j < i ==> (#[trigger] inputs[j]) is Some && uses[j]@ == (ToolUseView {
                    name: calls[j].name@,
                    id: calls[j].id@,
                    input: inputs[j]->0,
                }),
    {
        match input {
            Some(input) => {
                uses.push(
                    ToolUse { name: calls[i].name.clone(), id: calls[i].id.clone(), input },
                );
            },
            None => {
                assert(inputs[i as int] is None);
                return None;
            },
        }
        i = i + 1;
    }
    assert(tool_uses(calls.deep_view(), inputs@) is Some);
    assert(uses.deep_view() =~= tool_uses(calls.deep_view(), inputs@)->0);
    Some(uses)
}

/// Closes a round whose inputs read as `inputs`: its calls and what they gave back
/// become part of the conversation, and the conversation is sent again.
pub fn close_round(round: ToolRound, inputs: Vec<Option<serde_json::Value>>) -> (step: AgentStep)
    requires
        inputs.len() == round.calls.len(),
    ensures
        step@ == closing_step(round@, inputs@),
{
    let ToolRound { mut request, body, calls, results } = round;
    let ghost before = request.messages.deep_view();
    let uses = match make_tool_uses(&calls, inputs) {
        Some(uses) => uses,
        None => {
            return AgentStep::Failed(AgentError::InvalidToolInput);
        },
    };
    let mut reply = Message::plain(Role::Assistant, body);
    reply.tool_uses = uses;
    let mut answer = Message::plain(Role::User, String::new());
    answer.tool_returns = results;
    let ghost added = round_messages(body@, uses.deep_view(), results.deep_view());
    assert(reply@ =~~= added[0]);
    assert(answer@ =~~= added[1]);
    request.messages.push(reply);
    request.messages.push(answer);
    assert(request.messages.deep_view() =~= before + added);
    refresh_cache_points(&mut request.messages);
    AgentStep::Send(request)
}

/// The lines to print and the next step when the current call of a round gave
/// back `text`.
pub fn take_observation(round: ToolRound, text: String) -> (r: (Vec<String>, AgentStep))
    requires
        round@.waiting(),
    ensures
        (r.0.deep_view(), r.1@) == observation_step(round@, text@),
{
    let mut next = round;
    let k: usize = next.results.len();
    let answer = ToolReturn {
        id: next.calls[k].id.clone(),
        name: next.calls[k].name.clone(),
        text,
    };
    next.results.push(answer);
    assert(next@ =~~= round@.answered(text@));
    if next.results.len() < next.calls.len() {
        dispatch(next)
    } else {
        let printed: Vec<String> = Vec::new();
        assert(printed.deep_view() =~= seq![]);
        let inputs = read_inputs(&next.calls);
        (printed, close_round(next, inputs))
    }
}

/// The editor runs only for calls that name it, and only while such a call is
/// waiting.
pub proof fn only_editor_calls_reach_the_editor(
    request: RequestView,
    body: Seq<char>,
    calls: Seq<ToolCallView>,
    round: RoundView,
    text: Seq<char>,
)
    requires
        round.waiting(),
    ensures
        reply_step(request, body, calls).1 matches AgentStepView::Edit(next) ==> next.waiting()
            && next.current().name == ToolSchema::CodeEditor.spec_name(),
        observation_step(round, text).1 matches AgentStepView::Edit(next) ==> next.waiting()
            && next.current().name == ToolSchema::CodeEditor.spec_name(),
{
}

/// What calls give back stays paired with the calls, from the reply on through
/// every observation.
pub proof fn returns_stay_paired_with_calls(
    request: RequestView,
    body: Seq<char>,
    calls: Seq<ToolCallView>,
    round: RoundView,
    text: Seq<char>,
)
    requires
        round.waiting(),
        round.paired(),
    ensures
        reply_step(request, body, calls).1 matches AgentStepView::Edit(next) ==> next.paired()
            && next.request == request,
        round.answered(text).paired(),
        observation_step(round, text).1 matches AgentStepView::Edit(next) ==> next.paired()
            && next.request == round.request && next.results.len() == round.results.len() + 1,
{
}

/// A request that follows a round answers every tool call of the reply before it,
/// each under its own id and name and in order, and no other.
pub proof fn every_tool_call_is_answered(round: RoundView, text: Seq<char>)
    requires
        round.waiting(),
        round.paired(),
    ensures
        observation_step(round, text).1 matches AgentStepView::Send(request) ==> {
            let n = round.request.messages.len() as int;
            let uses = request.messages[n].tool_uses;
            let results = request.messages[n + 1].tool_returns;
            &&& request.messages.len() == n + 2
            &&& uses.len() == round.calls.len() && results.len() == round.calls.len()
            &&& forall|i: int|
                0 <= i < uses.len() ==> {
                    &&& (#[trigger] uses[i]).id == results[i].id && uses[i].name == results[i].name
                    &&& uses[i].id == round.calls[i].id && uses[i].name == round.calls[i].name
                    &&& Some(uses[i].input) == json_value(round.calls[i].input)
                }
        },
{
    let next = round.answered(text);
    if !next.waiting() {
        assert(next.paired());
    }
}

/// A request that follows a round holds the whole conversation so far: the
/// earlier messages stay as they were but for their cache points, and the model
/// and its settings stay the same.
pub proof fn the_conversation_only_grows(round: RoundView, text: Seq<char>, i: int)
    requires
        round.waiting(),
        0 <= i < round.request.messages.len(),
    ensures
        observation_step(round, text).1 matches AgentStepView::Send(request) ==> {
            &&& request.model == round.request.model
            &&& request.temperature_percent == round.request.temperature_percent
            &&& request.max_tokens == round.request.max_tokens
            &&& request.messages[i] == (MessageView {
                cache_point: request.messages[i].cache_point,
                ..round.request.messages[i]
            })
        },
{
}

/// Every request that follows a round has a cache point on its last message, and
/// no more than four in all.
pub proof fn every_request_is_cached_within_the_limit(round: RoundView, text: Seq<char>)
    requires
        round.waiting(),
    ensures
        observation_step(round, text).1 matches AgentStepView::Send(request) ==> {
            &&& cache_points(request.messages) <= MAX_CACHE_POINTS
            &&& request.messages.last().cache_point
        },
{
    if let AgentStepView::Send(request) = observation_step(round, text).1 {
        let next = round.answered(text);
        let all = round.request.messages + round_messages(
            round.body,
            tool_uses(next.calls, read_inputs_of(next.calls))->0,
            next.results,
        );
        cache_points_stay_within_the_limit(all);
        the_newest_cache_points_are_kept(all, all.len() - 2, all.len() - 1);
    }
}

proof fn tools_have_names_of_their_own()
    ensures
        "str_replace_editor"@ != "attempt_completion"@,
{
    reveal_strlit("str_replace_editor");
    reveal_strlit("attempt_completion");
    assert("str_replace_editor"@.len() != "attempt_completion"@.len()
        || "str_replace_editor"@[0] != "attempt_completion"@[0]);
}

/// A call for completion ends the loop and says so, whichever place it has among the
/// calls of a reply.
pub proof fn completion_ends_the_loop_wherever_it_stands(
    request: RequestView,
    body: Seq<char>,
    calls: Seq<ToolCallView>,
    round: RoundView,
    text: Seq<char>,
)
    ensures
        calls.len() > 0 && calls[0].name == "attempt_completion"@ ==> reply_step(
            request,
            body,
            calls,
        ) == (seq![body, "done"@], AgentStepView::Finished),
        round.results.len() + 1 < round.calls.len() && round.calls[round.results.len() as int
            + 1].name == "attempt_completion"@ ==> observation_step(round, text) == (
            seq!["done"@],
            AgentStepView::Finished,
        ),
{
    tools_have_names_of_their_own();
    assert(seq![body] + seq!["done"@] =~= seq![body, "done"@]);
}

/// A call fails for its tool exactly if it names neither the code editor nor the
/// completion, and the failure holds the name; this is so of a reply's first call and
/// of every later one, and it says nothing.
pub proof fn only_unknown_tools_fail(
    request: RequestView,
    body: Seq<char>,
    calls: Seq<ToolCallView>,
    round: RoundView,
    text: Seq<char>,
    name: Seq<char>,
)
    ensures
        reply_step(request, body, calls).1 == AgentStepView::Failed(
            AgentErrorView::UnknownTool(name),
        ) <==> calls.len() > 0 && calls[0].name == name && name != "str_replace_editor"@ && name
            != "attempt_completion"@,
        reply_step(request, body, calls).1 is Failed ==> reply_step(request, body, calls).0
            == seq![body],
        observation_step(round, text).1 == AgentStepView::Failed(AgentErrorView::UnknownTool(name))
            <==> round.results.len() + 1 < round.calls.len() && round.calls[round.results.len()
            as int + 1].name == name && name != "str_replace_editor"@ && name
            != "attempt_completion"@,
        observation_step(round, text).1 is Failed ==> observation_step(round, text).0.len() == 0,
{
    tools_have_names_of_their_own();
    assert(seq![body] + Seq::<Seq<char>>::empty() =~= seq![body]);
}

/// A call that names the code editor is carried out by it, whichever place it has among
/// the calls of a reply: the round waits at that call, with the request, the reply and
/// all of its calls, and with one result for every call before it.
pub proof fn editor_calls_are_carried_out(
    request: RequestView,
    body: Seq<char>,
    calls: Seq<ToolCallView>,
    round: RoundView,
    text: Seq<char>,
)
    ensures
        calls.len() > 0 && calls[0].name == "str_replace_editor"@ ==> reply_step(
            request,
            body,
            calls,
        ) == (
            seq![body],
            AgentStepView::Edit(RoundView { request, body, calls, results: Seq::empty() }),
        ),
        round.results.len() + 1 < round.calls.len() && round.calls[round.results.len() as int
            + 1].name == "str_replace_editor"@ ==> observation_step(round, text) == (
            Seq::<Seq<char>>::empty(),
            AgentStepView::Edit(
                RoundView {
                    request: round.request,
                    body: round.body,
                    calls: round.calls,
                    results: round.results.push(
                        ToolReturnView {
                            id: round.calls[round.results.len() as int].id,
                            name: round.calls[round.results.len() as int].name,
                            text,
                        },
                    ),
                },
            ),
        ),
{
    tools_have_names_of_their_own();
    assert(seq![body] + Seq::<Seq<char>>::empty() =~= seq![body]);
}

/// What the model says is always shown first, and its reply ends the loop exactly if it
/// makes no calls or asks for completion with the first of them. A reply is never
/// answered before its calls were carried out.
pub proof fn replies_are_shown(request: RequestView, body: Seq<char>, calls: Seq<ToolCallView>)
    ensures
        reply_step(request, body, calls).0.len() > 0,
        reply_step(request, body, calls).0[0] == body,
        reply_step(request, body, calls).1 is Finished <==> calls.len() == 0 || calls[0].name
            == "attempt_completion"@,
        calls.len() == 0 ==> reply_step(request, body, calls).0 == seq![body],
        !(reply_step(request, body, calls).1 is Send),
{
    tools_have_names_of_their_own();
}

/// When the last call of a round has been carried out, the conversation is sent again
/// if the inputs of all calls are JSON, and the loop fails if not. The messages before
/// stay in place; behind them stands the model's reply with its calls, and behind that
/// what each of them gave back, the last one what was just observed. Before the last
/// call nothing is sent.
pub proof fn results_are_sent_back(round: RoundView, text: Seq<char>)
    requires
        round.waiting(),
    ensures
        round.results.len() + 1 < round.calls.len() ==> !(observation_step(round, text).1 is Send),
        ({
            let readable = forall|i: int|
                0 <= i < round.calls.len() ==> json_value((#[trigger] round.calls[i]).input)
                    is Some;
            round.results.len() + 1 == round.calls.len() ==> {
                let (printed, step) = observation_step(round, text);
                let n = round.request.messages.len() as int;
                &&& printed.len() == 0
                &&& !readable ==> step == AgentStepView::Failed(AgentErrorView::InvalidToolInput)
                &&& readable ==> {
                    &&& step is Send
                    &&& step->Send_0.messages.len() == n + 2
                    &&& step->Send_0.messages[n].role == Role::Assistant
                    &&& step->Send_0.messages[n].content == round.body
                    &&& step->Send_0.messages[n].tools.len() == 0
                    &&& step->Send_0.messages[n].tool_returns.len() == 0
                    &&& step->Send_0.messages[n].tool_uses.len() == round.calls.len()
                    &&& step->Send_0.messages[n + 1].role == Role::User
                    &&& step->Send_0.messages[n + 1].content.len() == 0
                    &&& step->Send_0.messages[n + 1].tools.len() == 0
                    &&& step->Send_0.messages[n + 1].tool_uses.len() == 0
                    &&& step->Send_0.messages[n + 1].tool_returns == round.results.push(
                        ToolReturnView {
                            id: round.calls.last().id,
                            name: round.calls.last().name,
                            text,
                        },
                    )
                }
            }
        }),
{
    tools_have_names_of_their_own();
    let inputs = read_inputs_of(round.calls);
    if forall|i: int|
        0 <= i < round.calls.len() ==> json_value((#[trigger] round.calls[i]).input) is Some {
        assert forall|i: int| 0 <= i < round.calls.len() implies (
        #[trigger] inputs[i]) is Some by {
            assert(json_value(round.calls[i].input) is Some);
        }
    } else {
        let i = choose|i: int|
            0 <= i < round.calls.len() && !(json_value((#[trigger] round.calls[i]).input) is Some);
        assert(!(inputs[i] is Some));
    }
}

/// The step that a reply has come to after the code editor gave back `texts`, one for
/// each call that was carried out.
pub open spec fn after_observations(
    request: RequestView,
    body: Seq<char>,
    calls: Seq<ToolCallView>,
    texts: Seq<Seq<char>>,
) -> AgentStepView
    decreases texts.len(),
{
    if texts.len() == 0 {
        reply_step(request, body, calls).1
    } else {
        match after_observations(request, body, calls, texts.drop_last()) {
            AgentStepView::Edit(round) => observation_step(round, texts.last()).1,
            step => step,
        }
    }
}

/// As long as calls for the code editor come, they are carried out one after the other,
/// and what each of them gave back is kept for it; a call for completion behind them
/// ends the loop, and when all calls of a reply were carried out, everything that they
/// gave back is sent, each result for its own call and in order.
pub proof fn a_whole_round_is_carried_out(
    request: RequestView,
    body: Seq<char>,
    calls: Seq<ToolCallView>,
    texts: Seq<Seq<char>>,
)
    requires
        texts.len() <= calls.len(),
        calls.len() > 0,
        forall|i: int|
            0 <= i < texts.len() ==> (#[trigger] calls[i]).name == "str_replace_editor"@,
    ensures
        ({
            let step = after_observations(request, body, calls, texts);
            let k = texts.len() as int;
            &&& k < calls.len() && calls[k].name == "attempt_completion"@ ==> step is Finished
            &&& k < calls.len() && calls[k].name == "str_replace_editor"@ ==> {
                &&& step is Edit
                &&& step->Edit_0.request == request
                &&& step->Edit_0.body == body
                &&& step->Edit_0.calls == calls
                &&& step->Edit_0.results.len() == k
                &&& forall|i: int|
                    0 <= i < k ==> (#[trigger] step->Edit_0.results[i]) == (ToolReturnView {
                        id: calls[i].id,
                        name: calls[i].name,
                        text: texts[i],
                    })
            }
            &&& k == calls.len() && step is Send ==> {
                let sent = step->Send_0.messages.last().tool_returns;
                &&& sent.len() == k
                &&& forall|i: int|
                    0 <= i < k ==> (#[trigger] sent[i]) == (ToolReturnView {
                        id: calls[i].id,
                        name: calls[i].name,
                        text: texts[i],
                    })
            }
            &&& k == calls.len() ==> (step is Send <==> forall|i: int|
                0 <= i < calls.len() ==> json_value((#[trigger] calls[i]).input) is Some)
        }),
    decreases texts.len(),
{
    tools_have_names_of_their_own();
    if texts.len() == 0 {
        if calls[0].name == "str_replace_editor"@ {
            editor_calls_are_carried_out(
                request,
                body,
                calls,
                RoundView { request, body, calls, results: Seq::empty() },
                body,
            );
        }
        completion_ends_the_loop_wherever_it_stands(
            request,
            body,
            calls,
            RoundView { request, body, calls, results: Seq::empty() },
            body,
        );
    } else {
        let before = texts.drop_last();
        let k = before.len() as int;
        assert forall|i: int| 0 <= i < before.len() implies (
        #[trigger] calls[i]).name == "str_replace_editor"@ by {
        }
        a_whole_round_is_carried_out(request, body, calls, before);
        assert(calls[k].name == "str_replace_editor"@);
        let round = after_observations(request, body, calls, before)->Edit_0;
        editor_calls_are_carried_out(request, body, calls, round, texts.last());
        completion_ends_the_loop_wherever_it_stands(request, body, calls, round, texts.last());
        results_are_sent_back(round, texts.last());
    }
}

/// The tools are called by these names.
pub proof fn tools_are_called_by_name()
    ensures
        ToolSchema::CodeEditor.spec_name() == "str_replace_editor"@,
        ToolSchema::AttemptCompletion.spec_name() == "attempt_completion"@,
{
}

/// The view of a round shows every part of it, and that of an error what it names.
pub proof fn round_views_show_every_part(round: ToolRound, error: AgentError, i: int)
    ensures
        round@.request == round.request@ && round@.body == round.body@,
        round@.calls.len() == round.calls@.len(),
        0 <= i < round.calls@.len() ==> round@.calls[i] == round.calls@[i]@,
        round@.results.len() == round.results@.len(),
        0 <= i < round.results@.len() ==> round@.results[i] == round.results@[i]@,
        error matches AgentError::UnknownTool(name) ==> error@ == AgentErrorView::UnknownTool(
            name@,
        ),
{
}

/// A round that is closed sends every call with the value that its input was read as,
/// under its own name and id and in order, and fails if any input has no value.
pub proof fn closed_rounds_hold_the_values(
    round: RoundView,
    inputs: Seq<Option<serde_json::Value>>,
    i: int,
)
    requires
        inputs.len() == round.calls.len(),
    ensures
        closing_step(round, inputs) == AgentStepView::Failed(AgentErrorView::InvalidToolInput)
            <==> inputs.contains(None),
        !inputs.contains(None) ==> {
            let n = round.request.messages.len() as int;
            &&& closing_step(round, inputs) is Send
            &&& closing_step(round, inputs)->Send_0.messages.len() == n + 2
            &&& closing_step(round, inputs)->Send_0.messages[n + 1].tool_returns == round.results
            &&& 0 <= i < inputs.len() ==> {
                let sent = closing_step(round, inputs)->Send_0.messages[n].tool_uses[i];
                &&& sent.name == round.calls[i].name && sent.id == round.calls[i].id
                &&& Some(sent.input) == inputs[i]
            }
        },
{
    if inputs.contains(None) {
        let k = choose|k: int| 0 <= k < inputs.len() && inputs[k] == None::<serde_json::Value>;
        assert(!(inputs[k] is Some));
    } else {
        assert forall|k: int| 0 <= k < round.calls.len() implies (
        #[trigger] inputs[k]) is Some by {
            if inputs[k] is None {
                assert(inputs[k] == None::<serde_json::Value>);
                assert(inputs.contains(None));
            }
        }
    }
}

} // verus!
