//! A session with the assistant: its history, and the requests that are made to
//! models on its behalf.

use vstd::prelude::*;

use crate::context::{Exchange, ExchangeView, HumanMessage, RContext, RContextView};
use crate::message::{
    cache_points, refresh_cache_points, with_cache_points, CompletionRequest, Message, MessageView,
    RequestView, Role, ToolSchema, MAX_CACHE_POINTS,
};
use crate::message::{cache_points_stay_within_the_limit, the_newest_cache_points_are_kept};
use crate::models::{ConfigError, LLMClientConfig, LLMProperties, LLMType};

verus! {

/// What the planning model is told about its task.
pub const DEVELOPER_PROMPT: &'static str = r#"You are a senior software engineer, expert planner and system architect working alongside a software engineer.
- <context> contains the context for the request.
- Context can be a <file path="foo"> with file's entire context.
- Context can be a <excerpts title="References to `Foo::bar()`"> which contains sections of files that reference of an item.
- <previous_messages> (if any) contains the previous user messages and assistant response.
- <recent_changes> (if any) contains recent changes **already applied** to code.
- <user_request> contains the user's request.
- Given a request and context, you will generate a step by step plan to accomplish it. Use prior art seen in context where applicable.
- Your job is to be precise and effective, so avoid extraneous steps even if they offer convenience.
- Use existing patterns in the code unless explicitly requested otherwise.
- Feel free to refactor existing code."#;

/// What the editing model is told about its task.
pub const IMPLEMENTER_PROMPT: &'static str = "You are an expert software engineer.";

/// What the model that writes knowledge files is told about its task.
pub const KNOWLEDGE_PROMPT: &'static str = "You are a technical writer creating detailed documentation for a software project. Generate comprehensive knowledge about the given topic, including examples where applicable.";

/// What the model that writes commit messages is told about its task.
pub const COMMIT_PROMPT: &'static str = "Generate a commit message by summarizing changes using the current git diff.";

/// The temperature of requests for prose and plans, in hundredths.
pub const PROSE_TEMPERATURE_PERCENT: u32 = 60;

/// How many tokens a plan may take.
pub const PLAN_MAX_TOKENS: usize = 20480;

/// A universally unique identifier.
#[verifier::external_type_specification]
#[verifier::external_body]
pub struct ExUuid(uuid::Uuid);

/// `uuid::Uuid::new_v4` makes an identifier at random: which one comes back is left
/// to chance, so nothing is claimed of it.
#[verifier::external_body]
fn new_session_id() -> uuid::Uuid {
    uuid::Uuid::new_v4()
}

/// A session with the assistant.
#[derive(Debug)]
pub struct RSession {
    pub id: uuid::Uuid,
    pub repo_root: String,
    pub exchanges: Vec<Exchange>,
}

/// One exchange, on a line of its own.
pub open spec fn exchange_line(exchange: ExchangeView) -> Seq<char> {
    match exchange {
        ExchangeView::HumanMessage(text) => "<user>"@ + text + "</user>\n"@,
        ExchangeView::Response(text) => "<assistant>"@ + text + "</assistant>\n"@,
    }
}

/// The exchanges in order, a line each.
pub open spec fn exchange_lines(exchanges: Seq<ExchangeView>) -> Seq<char>
    decreases exchanges.len(),
{
    if exchanges.len() == 0 {
        Seq::empty()
    } else {
        exchange_lines(exchanges.drop_last()) + exchange_line(exchanges.last())
    }
}

/// The history block of a prompt: there is none as long as nothing was exchanged.
pub open spec fn history_block(exchanges: Seq<ExchangeView>) -> Seq<char> {
    if exchanges.len() == 0 {
        Seq::empty()
    } else {
        "<previous_messages>\n"@ + exchange_lines(exchanges) + "</previous_messages>\n"@
    }
}

/// The pieces of context in order, each followed by `separator`.
pub open spec fn rendered_contexts(
    contexts: Seq<RContextView>,
    separator: Seq<char>,
) -> Seq<char>
    decreases contexts.len(),
{
    if contexts.len() == 0 {
        Seq::empty()
    } else {
        rendered_contexts(contexts.drop_last(), separator) + contexts.last().rendered()
            + separator
    }
}

/// The context block of a prompt, and the request after it.
pub open spec fn request_block(contexts: Seq<RContextView>, request: Seq<char>) -> Seq<char> {
    "<context>\n"@ + rendered_contexts(contexts, seq!['\n']) + "</context>\n"@
        + "<user_request>\n"@ + request + "\n</user_request>"@
}

/// The prompt for a request: the history if it is wanted, then the context, then
/// the request.
pub open spec fn user_prompt(
    exchanges: Seq<ExchangeView>,
    contexts: Seq<RContextView>,
    request: Seq<char>,
    include_previous_exchanges: bool,
) -> Seq<char> {
    (if include_previous_exchanges {
        history_block(exchanges)
    } else {
        Seq::empty()
    }) + request_block(contexts, request)
}

/// The prompt for a knowledge file.
pub open spec fn knowledge_prompt(contexts: Seq<RContextView>, request: Seq<char>) -> Seq<char> {
    "<context>\n"@ + rendered_contexts(contexts, Seq::empty()) + "\n<user_request>\n"@ + request
        + "\n</user_request>"@
}

/// The message that opens a conversation with the editing model.
pub open spec fn implementer_system_view() -> MessageView {
    MessageView {
        tools: seq![ToolSchema::CodeEditor, ToolSchema::AttemptCompletion],
        ..MessageView::plain(Role::System, IMPLEMENTER_PROMPT@)
    }
}

/// The request for a knowledge file.
pub open spec fn knowledge_request(
    model: LLMProperties,
    contexts: Seq<RContextView>,
    request: Seq<char>,
) -> RequestView {
    RequestView {
        model,
        messages: seq![
            MessageView::plain(Role::System, KNOWLEDGE_PROMPT@),
            MessageView::plain(Role::User, knowledge_prompt(contexts, request)),
        ],
        temperature_percent: PROSE_TEMPERATURE_PERCENT,
        max_tokens: None,
    }
}

/// The request for a commit message.
pub open spec fn commit_request(
    model: LLMProperties,
    contexts: Seq<RContextView>,
    request: Seq<char>,
) -> RequestView {
    RequestView {
        model,
        messages: seq![
            MessageView::plain(Role::System, COMMIT_PROMPT@),
            MessageView::plain(Role::User, request_block(contexts, request)),
        ],
        temperature_percent: PROSE_TEMPERATURE_PERCENT,
        max_tokens: None,
    }
}

/// The request for a plan.
pub open spec fn plan_request(
    model: LLMProperties,
    exchanges: Seq<ExchangeView>,
    contexts: Seq<RContextView>,
    request: Seq<char>,
) -> RequestView {
    RequestView {
        model,
        messages: seq![
            MessageView::plain(Role::System, DEVELOPER_PROMPT@),
            MessageView::plain(Role::User, user_prompt(exchanges, contexts, request, true)),
        ],
        temperature_percent: PROSE_TEMPERATURE_PERCENT,
        max_tokens: Some(PLAN_MAX_TOKENS),
    }
}

/// The first request to the editing model, which is given its prompt as it stands.
pub open spec fn editing_request(model: LLMProperties, prompt: Seq<char>) -> RequestView {
    RequestView {
        model,
        messages: with_cache_points(
            seq![implementer_system_view(), MessageView::plain(Role::User, prompt)],
        ),
        temperature_percent: 0,
        max_tokens: None,
    }
}

/// The exchanges after a plan was asked for and given.
pub open spec fn with_plan(
    exchanges: Seq<ExchangeView>,
    request: Seq<char>,
    plan: Seq<char>,
) -> Seq<ExchangeView> {
    exchanges.push(ExchangeView::HumanMessage(request)).push(ExchangeView::Response(plan))
}

/// Appends the pieces of context, each followed by a line break if `line_breaks`.
fn push_contexts(s: &mut String, contexts: &Vec<RContext>, line_breaks: bool)
    ensures
        final(s)@ == old(s)@ + rendered_contexts(
            contexts.deep_view(),
            if line_breaks {
                seq!['\n']
            } else {
                Seq::empty()
            },
        ),
{
    let ghost all = contexts.deep_view();
    let ghost separator: Seq<char> = if line_breaks {
        seq!['\n']
    } else {
        Seq::empty()
    };
    assert(s@ =~= old(s)@ + rendered_contexts(all.take(0), separator));
    for i in 0..contexts.len()
        invariant
            all == contexts.deep_view(),
            separator == (if line_breaks {
                seq!['\n']
            } else {
                Seq::empty()
            }),
            s@ == old(s)@ + rendered_contexts(all.take(i as int), separator),
    {
        contexts[i].to_message(s);
        if line_breaks {
            s.push('\n');
        }
        assert(all.take(i + 1).drop_last() =~= all.take(i as int));
        assert(all.take(i + 1).last() == contexts[i as int]@);
        assert(s@ =~= old(s)@ + rendered_contexts(all.take(i + 1), separator));
    }
    assert(all.take(contexts.len() as int) =~= all);
}

/// Appends the exchanges, a line each.
fn push_exchanges(s: &mut String, exchanges: &Vec<Exchange>)
    ensures
        final(s)@ == old(s)@ + exchange_lines(exchanges.deep_view()),
{
    let ghost all = exchanges.deep_view();
    assert(s@ =~= old(s)@ + exchange_lines(all.take(0)));
    for i in 0..exchanges.len()
        invariant
            all == exchanges.deep_view(),
            s@ == old(s)@ + exchange_lines(all.take(i as int)),
    {
        match &exchanges[i] {
            Exchange::HumanMessage(text) => {
                s.append("<user>");
                s.append(text.as_str());
                s.append("</user>\n");
            },
            Exchange::Response(text) => {
                s.append("<assistant>");
                s.append(text.as_str());
                s.append("</assistant>\n");
            },
        }
        assert(all.take(i + 1).drop_last() =~= all.take(i as int));
        assert(all.take(i + 1).last() == exchanges[i as int]@);
        assert(s@ =~= old(s)@ + exchange_lines(all.take(i + 1)));
    }
    assert(all.take(exchanges.len() as int) =~= all);
}

/// A conversation of two messages.
fn two_messages(first: Message, second: Message) -> (messages: Vec<Message>)
    ensures
        messages.deep_view() == seq![first@, second@],
{
    let mut messages: Vec<Message> = Vec::new();
    messages.push(first);
    messages.push(second);
    assert(messages.deep_view() =~= seq![first@, second@]);
    messages
}

impl RSession {
    /// A session without history, in the current directory, under an identifier that
    /// is left to chance.
    pub fn start() -> (session: Self)
        ensures
            session.repo_root@ == "."@,
            session.exchanges.deep_view() == Seq::<ExchangeView>::empty(),
    {
        let session = RSession {
            id: new_session_id(),
            repo_root: ".".to_owned(),
            exchanges: Vec::new(),
        };
        assert(session.exchanges.deep_view() =~= Seq::<ExchangeView>::empty());
        session
    }

    /// The message that opens a conversation with the planning model.
    pub fn developer_message() -> (message: Message)
        ensures
            message@ == MessageView::plain(Role::System, DEVELOPER_PROMPT@),
    {
        Message::plain(Role::System, DEVELOPER_PROMPT.to_owned())
    }

    /// The message that opens a conversation with the editing model.
    pub fn implementer_system() -> (message: Message)
        ensures
            message@ == implementer_system_view(),
    {
        let mut message = Message::plain(Role::System, IMPLEMENTER_PROMPT.to_owned());
        message.tools.push(ToolSchema::CodeEditor);
        message.tools.push(ToolSchema::AttemptCompletion);
        assert(message@ =~~= implementer_system_view());
        message
    }

    /// The message that puts a request to a model.
    pub fn build_user_message(
        &self,
        request: &HumanMessage,
        include_previous_exchanges: bool,
    ) -> (message: Message)
        ensures
            message@ == MessageView::plain(
                Role::User,
                user_prompt(
                    self.exchanges.deep_view(),
                    request.context.deep_view(),
                    request.user_request@,
                    include_previous_exchanges,
                ),
            ),
    {
        let mut text = String::new();
        if include_previous_exchanges && self.exchanges.len() > 0 {
            text.append("<previous_messages>\n");
            push_exchanges(&mut text, &self.exchanges);
            text.append("</previous_messages>\n");
        }
        text.append("<context>\n");
        push_contexts(&mut text, &request.context, true);
        text.append("</context>\n");
        text.append("<user_request>\n");
        text.append(request.user_request.as_str());
        text.append("\n</user_request>");
        assert(text@ =~= user_prompt(
            self.exchanges.deep_view(),
            request.context.deep_view(),
            request.user_request@,
            include_previous_exchanges,
        ));
        Message::plain(Role::User, text)
    }

    /// The request for a knowledge file. The model's answer is the file's text.
    pub fn create_knowledge(&self, request: &HumanMessage, config: &LLMClientConfig) -> (r: Result<
        CompletionRequest,
        ConfigError,
    >)
        ensures
            match config.spec_config_for_llm(LLMType::O3MiniHigh) {
                Ok(model) => r matches Ok(completion) && completion@ == knowledge_request(
                    model,
                    request.context.deep_view(),
                    request.user_request@,
                ),
                Err(error) => r == Err::<CompletionRequest, ConfigError>(error),
            },
    {
        let model = match config.config_for_llm(LLMType::O3MiniHigh) {
            Ok(model) => model,
            Err(error) => {
                return Err(error);
            },
        };
        let mut text = String::new();
        text.append("<context>\n");
        push_contexts(&mut text, &request.context, false);
        text.append("\n<user_request>\n");
        text.append(request.user_request.as_str());
        text.append("\n</user_request>");
        assert(text@ =~= knowledge_prompt(request.context.deep_view(), request.user_request@));
        let messages = two_messages(
            Message::plain(Role::System, KNOWLEDGE_PROMPT.to_owned()),
            Message::plain(Role::User, text),
        );
        Ok(
            CompletionRequest {
                model,
                messages,
                temperature_percent: PROSE_TEMPERATURE_PERCENT,
                max_tokens: None,
            },
        )
    }

    /// The request for a commit message. The model's answer is the message.
    pub fn generate_commit_message(&self, request: &HumanMessage, config: &LLMClientConfig) -> (r:
        Result<CompletionRequest, ConfigError>)
        ensures
            match config.spec_config_for_llm(LLMType::O3MiniHigh) {
                Ok(model) => r matches Ok(completion) && completion@ == commit_request(
                    model,
                    request.context.deep_view(),
                    request.user_request@,
                ),
                Err(error) => r == Err::<CompletionRequest, ConfigError>(error),
            },
    {
        let model = match config.config_for_llm(LLMType::O3MiniHigh) {
            Ok(model) => model,
            Err(error) => {
                return Err(error);
            },
        };
        let messages = two_messages(
            Message::plain(Role::System, COMMIT_PROMPT.to_owned()),
            self.build_user_message(request, false),
        );
        let completion = CompletionRequest {
            model,
            messages,
            temperature_percent: PROSE_TEMPERATURE_PERCENT,
            max_tokens: None,
        };
        assert(user_prompt(
            self.exchanges.deep_view(),
            request.context.deep_view(),
            request.user_request@,
            false,
        ) =~= request_block(request.context.deep_view(), request.user_request@));
        Ok(completion)
    }

    /// The request for a plan. The model's answer goes to [`RSession::take_plan`].
    pub fn architect_editting(&self, request: &HumanMessage, config: &LLMClientConfig) -> (r:
        Result<CompletionRequest, ConfigError>)
        ensures
            match config.spec_config_for_llm(LLMType::O3MiniHigh) {
                Ok(model) => r matches Ok(completion) && completion@ == plan_request(
                    model,
                    self.exchanges.deep_view(),
                    request.context.deep_view(),
                    request.user_request@,
                ),
                Err(error) => r == Err::<CompletionRequest, ConfigError>(error),
            },
    {
        let model = match config.config_for_llm(LLMType::O3MiniHigh) {
            Ok(model) => model,
            Err(error) => {
                return Err(error);
            },
        };
        let messages = two_messages(
            RSession::developer_message(),
            self.build_user_message(request, true),
        );
        Ok(
            CompletionRequest {
                model,
                messages,
                temperature_percent: PROSE_TEMPERATURE_PERCENT,
                max_tokens: Some(PLAN_MAX_TOKENS),
            },
        )
    }

    /// Takes the plan for a request into the history and hands it, with the
    /// request's context but without the history, to the editing model.
    pub fn take_plan(
        &mut self,
        request: HumanMessage,
        plan: String,
        config: &LLMClientConfig,
    ) -> (r: Result<CompletionRequest, ConfigError>)
        ensures
            final(self).exchanges.deep_view() == with_plan(
                old(self).exchanges.deep_view(),
                request.user_request@,
                plan@,
            ),
            final(self).id == old(self).id,
            final(self).repo_root == old(self).repo_root,
            match config.spec_config_for_llm(LLMType::ClaudeSonnet) {
                Ok(model) => r matches Ok(completion) && completion@ == editing_request(
                    model,
                    request_block(request.context.deep_view(), plan@),
                ),
                Err(error) => r == Err::<CompletionRequest, ConfigError>(error),
            },
    {
        let HumanMessage { user_request, context } = request;
        self.exchanges.push(Exchange::HumanMessage(user_request));
        self.exchanges.push(Exchange::Response(plan.clone()));
        assert(self.exchanges.deep_view() =~= with_plan(
            old(self).exchanges.deep_view(),
            user_request@,
            plan@,
        ));
        let handed = HumanMessage { user_request: plan, context };
        assert(user_prompt(
            self.exchanges.deep_view(),
            context.deep_view(),
            plan@,
            false,
        ) =~= request_block(context.deep_view(), plan@));
        self.implementer(&handed, config, false)
    }

    /// The first request to the editing model. The model's replies go to
    /// [`crate::agent::take_reply`].
    pub fn implementer(
        &self,
        request: &HumanMessage,
        config: &LLMClientConfig,
        include_previous_exchanges: bool,
    ) -> (r: Result<CompletionRequest, ConfigError>)
        ensures
            match config.spec_config_for_llm(LLMType::ClaudeSonnet) {
                Ok(model) => r matches Ok(completion) && completion@ == editing_request(
                    model,
                    user_prompt(
                        self.exchanges.deep_view(),
                        request.context.deep_view(),
                        request.user_request@,
                        include_previous_exchanges,
                    ),
                ),
                Err(error) => r == Err::<CompletionRequest, ConfigError>(error),
            },
    {
        let model = match config.config_for_llm(LLMType::ClaudeSonnet) {
            Ok(model) => model,
            Err(error) => {
                return Err(error);
            },
        };
        let mut messages = two_messages(
            RSession::implementer_system(),
            self.build_user_message(request, include_previous_exchanges),
        );
        refresh_cache_points(&mut messages);
        Ok(CompletionRequest { model, messages, temperature_percent: 0, max_tokens: None })
    }
}

/// The history, if it is wanted, stands before everything else, and the rest of a
/// prompt does not depend on it: without the history all sessions give the same
/// prompt, and in a session without history it makes no difference whether it is
/// wanted.
pub proof fn the_history_comes_first(
    exchanges: Seq<ExchangeView>,
    other: Seq<ExchangeView>,
    contexts: Seq<RContextView>,
    request: Seq<char>,
)
    ensures
        user_prompt(exchanges, contexts, request, true) == history_block(exchanges) + user_prompt(
            exchanges,
            contexts,
            request,
            false,
        ),
        user_prompt(exchanges, contexts, request, false) == user_prompt(
            other,
            contexts,
            request,
            false,
        ),
        user_prompt(Seq::empty(), contexts, request, true) == user_prompt(
            Seq::empty(),
            contexts,
            request,
            false,
        ),
{
    assert(user_prompt(exchanges, contexts, request, false) =~= request_block(contexts, request));
    assert(user_prompt(other, contexts, request, false) =~= request_block(contexts, request));
}

/// Every prompt ends with the request as the user wrote it, in its own element.
pub proof fn every_prompt_ends_with_the_request(
    exchanges: Seq<ExchangeView>,
    contexts: Seq<RContextView>,
    request: Seq<char>,
    include_previous_exchanges: bool,
)
    ensures
        ("<user_request>\n"@ + request + "\n</user_request>"@).is_suffix_of(
            user_prompt(exchanges, contexts, request, include_previous_exchanges),
        ),
        ("<user_request>\n"@ + request + "\n</user_request>"@).is_suffix_of(
            knowledge_prompt(contexts, request),
        ),
{
    let element = "<user_request>\n"@ + request + "\n</user_request>"@;
    let prompt = user_prompt(exchanges, contexts, request, include_previous_exchanges);
    assert(element =~= prompt.subrange(prompt.len() - element.len(), prompt.len() as int));
    let knowledge = knowledge_prompt(contexts, request);
    reveal_strlit("<user_request>\n");
    reveal_strlit("\n<user_request>\n");
    assert(element =~= knowledge.subrange(
        knowledge.len() - element.len(),
        knowledge.len() as int,
    ));
}

/// A plan adds to the history exactly the request and the plan, in this order and
/// after everything else, so that the next plan is asked for with both in view.
pub proof fn a_plan_extends_the_history(
    exchanges: Seq<ExchangeView>,
    request: Seq<char>,
    plan: Seq<char>,
)
    ensures
        exchange_lines(with_plan(exchanges, request, plan)) == exchange_lines(exchanges)
            + "<user>"@ + request + "</user>\n"@ + "<assistant>"@ + plan + "</assistant>\n"@,
        history_block(with_plan(exchanges, request, plan)) == "<previous_messages>\n"@
            + exchange_lines(with_plan(exchanges, request, plan)) + "</previous_messages>\n"@,
{
    let first = exchanges.push(ExchangeView::HumanMessage(request));
    let both = with_plan(exchanges, request, plan);
    assert(first.drop_last() =~= exchanges);
    assert(both.drop_last() =~= first);
    assert(exchange_lines(first) == exchange_lines(exchanges) + exchange_line(first.last()));
    assert(exchange_lines(both) =~= exchange_lines(exchanges) + "<user>"@ + request
        + "</user>\n"@ + "<assistant>"@ + plan + "</assistant>\n"@);
}

/// The pieces of context stand in a prompt in their order: what renders first and
/// what renders last is the two halves of the list, one after the other.
pub proof fn contexts_render_in_order(
    first: Seq<RContextView>,
    rest: Seq<RContextView>,
    separator: Seq<char>,
)
    ensures
        rendered_contexts(first + rest, separator) == rendered_contexts(first, separator)
            + rendered_contexts(rest, separator),
    decreases rest.len(),
{
    if rest.len() == 0 {
        assert(first + rest =~= first);
        assert(rendered_contexts(first, separator) =~= rendered_contexts(first, separator)
            + rendered_contexts(rest, separator));
    } else {
        contexts_render_in_order(first, rest.drop_last(), separator);
        assert((first + rest).drop_last() =~= first + rest.drop_last());
        assert(rendered_contexts(first + rest, separator) =~= rendered_contexts(first, separator)
            + rendered_contexts(rest, separator));
    }
}

/// The first request to the editing model has a cache point on its last message
/// and no more than four in all.
pub proof fn the_first_editing_request_is_cached(model: LLMProperties, prompt: Seq<char>)
    ensures
        cache_points(editing_request(model, prompt).messages) <= MAX_CACHE_POINTS,
        editing_request(model, prompt).messages.last().cache_point,
{
    let messages = seq![implementer_system_view(), MessageView::plain(Role::User, prompt)];
    cache_points_stay_within_the_limit(messages);
    the_newest_cache_points_are_kept(messages, 0, 1);
}

/// Exchanges stand in the history one by one and in their order, each on a line that
/// says whose it is.
pub proof fn exchanges_stand_in_order(
    first: Seq<ExchangeView>,
    rest: Seq<ExchangeView>,
    text: Seq<char>,
)
    ensures
        exchange_lines(first + rest) == exchange_lines(first) + exchange_lines(rest),
        exchange_lines(seq![ExchangeView::HumanMessage(text)]) == "<user>"@ + text + "</user>\n"@,
        exchange_lines(seq![ExchangeView::Response(text)]) == "<assistant>"@ + text
            + "</assistant>\n"@,
    decreases rest.len(),
{
    reveal_with_fuel(exchange_lines, 2);
    let asked = seq![ExchangeView::HumanMessage(text)];
    assert(exchange_lines(asked) =~= "<user>"@ + text + "</user>\n"@);
    let answered = seq![ExchangeView::Response(text)];
    assert(exchange_lines(answered) =~= "<assistant>"@ + text + "</assistant>\n"@);
    if rest.len() == 0 {
        assert(first + rest =~= first);
        assert(exchange_lines(first) =~= exchange_lines(first) + exchange_lines(rest));
    } else {
        exchanges_stand_in_order(first, rest.drop_last(), text);
        assert((first + rest).drop_last() =~= first + rest.drop_last());
        assert(exchange_lines(first + rest) =~= exchange_lines(first) + exchange_lines(rest));
    }
}

/// The history is one element around the exchanges, and there is none as long as
/// nothing was exchanged.
pub proof fn the_history_is_one_element(exchanges: Seq<ExchangeView>)
    ensures
        exchanges.len() > 0 ==> history_block(exchanges) == "<previous_messages>\n"@
            + exchange_lines(exchanges) + "</previous_messages>\n"@,
        history_block(Seq::empty()) == Seq::<char>::empty(),
{
}

/// A prompt without context and history is the empty context and the request; one more
/// piece of context adds its element and a line break at the end of the context and
/// changes nothing else.
pub proof fn one_more_context_adds_its_element(
    exchanges: Seq<ExchangeView>,
    contexts: Seq<RContextView>,
    next: RContextView,
    request: Seq<char>,
    include_previous_exchanges: bool,
)
    ensures
        user_prompt(exchanges, Seq::empty(), request, false) == "<context>\n"@ + "</context>\n"@
            + "<user_request>\n"@ + request + "\n</user_request>"@,
        ({
            let end = "</context>\n"@ + "<user_request>\n"@ + request + "\n</user_request>"@;
            exists|start: Seq<char>|
                {
                    &&& user_prompt(exchanges, contexts, request, include_previous_exchanges)
                        == #[trigger] (start + end)
                    &&& user_prompt(
                        exchanges,
                        contexts.push(next),
                        request,
                        include_previous_exchanges,
                    ) == start + (next.rendered() + seq!['\n']) + end
                }
        }),
{
    let none = Seq::<RContextView>::empty();
    assert(rendered_contexts(none, seq!['\n']) == Seq::<char>::empty());
    assert(user_prompt(exchanges, none, request, false) =~= "<context>\n"@ + "</context>\n"@
        + "<user_request>\n"@ + request + "\n</user_request>"@);
    let history = if include_previous_exchanges {
        history_block(exchanges)
    } else {
        Seq::empty()
    };
    let start = history + ("<context>\n"@ + rendered_contexts(contexts, seq!['\n']));
    let end = "</context>\n"@ + "<user_request>\n"@ + request + "\n</user_request>"@;
    assert(contexts.push(next).drop_last() =~= contexts);
    assert(user_prompt(exchanges, contexts, request, include_previous_exchanges) =~= start + end);
    assert(user_prompt(exchanges, contexts.push(next), request, include_previous_exchanges)
        =~= start + (next.rendered() + seq!['\n']) + end);
}

/// The prompt for a knowledge file without context is the start of the context and the
/// request; one more piece of context adds its element at the end of the context and
/// changes nothing else.
pub proof fn one_more_context_adds_to_knowledge(
    contexts: Seq<RContextView>,
    next: RContextView,
    request: Seq<char>,
)
    ensures
        knowledge_prompt(Seq::empty(), request) == "<context>\n"@ + "\n<user_request>\n"@
            + request + "\n</user_request>"@,
        ({
            let end = "\n<user_request>\n"@ + request + "\n</user_request>"@;
            exists|start: Seq<char>|
                {
                    &&& knowledge_prompt(contexts, request) == #[trigger] (start + end)
                    &&& knowledge_prompt(contexts.push(next), request) == start + next.rendered()
                        + end
                }
        }),
{
    let none = Seq::<RContextView>::empty();
    assert(rendered_contexts(none, Seq::empty()) == Seq::<char>::empty());
    assert(knowledge_prompt(none, request) =~= "<context>\n"@ + "\n<user_request>\n"@ + request
        + "\n</user_request>"@);
    let start = "<context>\n"@ + rendered_contexts(contexts, Seq::empty());
    let end = "\n<user_request>\n"@ + request + "\n</user_request>"@;
    assert(contexts.push(next).drop_last() =~= contexts);
    assert(knowledge_prompt(contexts, request) =~= start + end);
    assert(knowledge_prompt(contexts.push(next), request) =~= start + next.rendered() + end);
}

/// Whether a request tells a model its task in one message and puts a prompt to it in a
/// second one, both of them text alone but for the tools that the first may offer and
/// the cache points.
pub open spec fn puts(request: RequestView, task: Seq<char>, prompt: Seq<char>) -> bool {
    &&& request.messages.len() == 2
    &&& request.messages[0].role == Role::System
    &&& request.messages[0].content == task
    &&& request.messages[1].role == Role::User
    &&& request.messages[1].content == prompt
    &&& request.messages[1].tools.len() == 0
    &&& forall|i: int|
        0 <= i < 2 ==> (#[trigger] request.messages[i]).tool_uses.len() == 0
            && request.messages[i].tool_returns.len() == 0
}

/// Every first request puts its own prompt to its own model, in two messages. Plans,
/// knowledge and commit messages are asked for at a temperature of 0.6 and without
/// tools or cache points, and only plans with a limit, of 20480 tokens; edits are asked
/// for at a temperature of 0, with both tools and with the prompt to be cached.
pub proof fn requests_put_their_prompts(
    model: LLMProperties,
    exchanges: Seq<ExchangeView>,
    contexts: Seq<RContextView>,
    request: Seq<char>,
)
    ensures
        ({
            let plan = plan_request(model, exchanges, contexts, request);
            &&& puts(plan, DEVELOPER_PROMPT@, user_prompt(exchanges, contexts, request, true))
            &&& plan.model == model && plan.temperature_percent == 60
            &&& plan.max_tokens == Some(20480usize)
            &&& plan.messages[0].tools.len() == 0
            &&& !plan.messages[0].cache_point && !plan.messages[1].cache_point
        }),
        ({
            let knowledge = knowledge_request(model, contexts, request);
            &&& puts(knowledge, KNOWLEDGE_PROMPT@, knowledge_prompt(contexts, request))
            &&& knowledge.model == model && knowledge.temperature_percent == 60
            &&& knowledge.max_tokens is None
            &&& knowledge.messages[0].tools.len() == 0
            &&& !knowledge.messages[0].cache_point && !knowledge.messages[1].cache_point
        }),
        ({
            let commit = commit_request(model, contexts, request);
            &&& puts(commit, COMMIT_PROMPT@, user_prompt(exchanges, contexts, request, false))
            &&& commit.model == model && commit.temperature_percent == 60
            &&& commit.max_tokens is None
            &&& commit.messages[0].tools.len() == 0
            &&& !commit.messages[0].cache_point && !commit.messages[1].cache_point
        }),
        ({
            let edit = editing_request(model, request);
            &&& puts(edit, "You are an expert software engineer."@, request)
            &&& edit.model == model && edit.temperature_percent == 0 && edit.max_tokens is None
            &&& edit.messages[0].tools == seq![
                ToolSchema::CodeEditor,
                ToolSchema::AttemptCompletion,
            ]
            &&& !edit.messages[0].cache_point && edit.messages[1].cache_point
        }),
{
    the_history_comes_first(exchanges, exchanges, contexts, request);
    assert(user_prompt(exchanges, contexts, request, false) =~= request_block(contexts, request));
    the_first_editing_request_is_cached(model, request);
}

/// A plan is kept behind everything that was exchanged before, which stays as it was:
/// first the request, then the plan.
pub proof fn a_plan_is_kept_behind_the_history(
    exchanges: Seq<ExchangeView>,
    request: Seq<char>,
    plan: Seq<char>,
)
    ensures
        with_plan(exchanges, request, plan).len() == exchanges.len() + 2,
        with_plan(exchanges, request, plan).take(exchanges.len() as int) == exchanges,
        with_plan(exchanges, request, plan)[exchanges.len() as int] == ExchangeView::HumanMessage(
            request,
        ),
        with_plan(exchanges, request, plan).last() == ExchangeView::Response(plan),
{
    assert(with_plan(exchanges, request, plan).take(exchanges.len() as int) =~= exchanges);
}

/// The models are told their tasks in these words.
pub proof fn tasks_are_told_in_these_words()
    ensures
        DEVELOPER_PROMPT@ == r#"You are a senior software engineer, expert planner and system architect working alongside a software engineer.
- <context> contains the context for the request.
- Context can be a <file path="foo"> with file's entire context.
- Context can be a <excerpts title="References to `Foo::bar()`"> which contains sections of files that reference of an item.
- <previous_messages> (if any) contains the previous user messages and assistant response.
- <recent_changes> (if any) contains recent changes **already applied** to code.
- <user_request> contains the user's request.
- Given a request and context, you will generate a step by step plan to accomplish it. Use prior art seen in context where applicable.
- Your job is to be precise and effective, so avoid extraneous steps even if they offer convenience.
- Use existing patterns in the code unless explicitly requested otherwise.
- Feel free to refactor existing code."#@,
        IMPLEMENTER_PROMPT@ == "You are an expert software engineer."@,
        KNOWLEDGE_PROMPT@ == "You are a technical writer creating detailed documentation for a software project. Generate comprehensive knowledge about the given topic, including examples where applicable."@,
        COMMIT_PROMPT@ == "Generate a commit message by summarizing changes using the current git diff."@,
{
}

} // verus!
