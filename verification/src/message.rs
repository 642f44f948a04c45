//! Messages to and from a model, and the cache points that they carry.

use vstd::prelude::*;

use crate::models::LLMProperties;

verus! {

/// A JSON value as `serde_json` holds it.
#[verifier::external_type_specification]
#[verifier::external_body]
pub struct ExJsonValue(serde_json::Value);

/// The error that `serde_json` gives for text that it cannot read.
#[verifier::external_type_specification]
#[verifier::external_body]
pub struct ExJsonError(serde_json::Error);

/// The value that `serde_json::from_str` reads from a text, if the text is JSON.
pub uninterp spec fn json_value(text: Seq<char>) -> Option<serde_json::Value>;

/// `serde_json::from_str`, asked for a JSON value of any shape: which value comes
/// back, or that none does, depends on the text alone.
#[verifier::external_body]
pub(crate) fn parse_json(text: &str) -> (r: Result<serde_json::Value, serde_json::Error>)
    ensures
        match r {
            Ok(value) => json_value(text@) == Some(value),
            Err(_) => json_value(text@) is None,
        },
{
    serde_json::from_str(text)
}

/// Who speaks in a message.
#[derive(Clone, Copy, Debug, PartialEq, Eq, Structural)]
pub enum Role {
    System,
    User,
    Assistant,
}

/// The tools that a model may be offered.
#[derive(Clone, Copy, Debug, PartialEq, Eq, Structural)]
pub enum ToolSchema {
    CodeEditor,
    AttemptCompletion,
}

/// A tool call as a model writes it: the input is text that should be JSON.
#[derive(Debug)]
pub struct ToolCall {
    pub name: String,
    pub id: String,
    pub input: String,
}

/// A tool call as it is sent back in the history of a conversation.
#[derive(Debug)]
pub struct ToolUse {
    pub name: String,
    pub id: String,
    pub input: serde_json::Value,
}

/// What a tool gave back for a call.
#[derive(Debug)]
pub struct ToolReturn {
    pub id: String,
    pub name: String,
    pub text: String,
}

/// One message of a conversation.
#[derive(Debug)]
pub struct Message {
    pub role: Role,
    pub content: String,
    pub tools: Vec<ToolSchema>,
    pub tool_uses: Vec<ToolUse>,
    pub tool_returns: Vec<ToolReturn>,
    pub cache_point: bool,
}

/// A request for a completion. The temperature is given in hundredths.
#[derive(Debug)]
pub struct CompletionRequest {
    pub model: LLMProperties,
    pub messages: Vec<Message>,
    pub temperature_percent: u32,
    pub max_tokens: Option<usize>,
}

/// The contents of a [`ToolCall`].
#[verifier::ext_equal]
pub struct ToolCallView {
    pub name: Seq<char>,
    pub id: Seq<char>,
    pub input: Seq<char>,
}

/// The contents of a [`ToolUse`].
#[verifier::ext_equal]
pub struct ToolUseView {
    pub name: Seq<char>,
    pub id: Seq<char>,
    pub input: serde_json::Value,
}

/// The contents of a [`ToolReturn`].
#[verifier::ext_equal]
pub struct ToolReturnView {
    pub id: Seq<char>,
    pub name: Seq<char>,
    pub text: Seq<char>,
}

/// The contents of a [`Message`].
#[verifier::ext_equal]
pub struct MessageView {
    pub role: Role,
    pub content: Seq<char>,
    pub tools: Seq<ToolSchema>,
    pub tool_uses: Seq<ToolUseView>,
    pub tool_returns: Seq<ToolReturnView>,
    pub cache_point: bool,
}

/// The contents of a [`CompletionRequest`].
#[verifier::ext_equal]
pub struct RequestView {
    pub model: LLMProperties,
    pub messages: Seq<MessageView>,
    pub temperature_percent: u32,
    pub max_tokens: Option<usize>,
}

impl View for CompletionRequest {
    type V = RequestView;

    open spec fn view(&self) -> RequestView {
        RequestView {
            model: self.model,
            messages: self.messages.deep_view(),
            temperature_percent: self.temperature_percent,
            max_tokens: self.max_tokens,
        }
    }
}

impl View for ToolCall {
    type V = ToolCallView;

    open spec fn view(&self) -> ToolCallView {
        ToolCallView { name: self.name@, id: self.id@, input: self.input@ }
    }
}

impl DeepView for ToolCall {
    type V = ToolCallView;

    open spec fn deep_view(&self) -> ToolCallView {
        self@
    }
}

impl View for ToolUse {
    type V = ToolUseView;

    open spec fn view(&self) -> ToolUseView {
        ToolUseView { name: self.name@, id: self.id@, input: self.input }
    }
}

impl DeepView for ToolUse {
    type V = ToolUseView;

    open spec fn deep_view(&self) -> ToolUseView {
        self@
    }
}

impl View for ToolReturn {
    type V = ToolReturnView;

    open spec fn view(&self) -> ToolReturnView {
        ToolReturnView { id: self.id@, name: self.name@, text: self.text@ }
    }
}

impl DeepView for ToolReturn {
    type V = ToolReturnView;

    open spec fn deep_view(&self) -> ToolReturnView {
        self@
    }
}

impl View for Message {
    type V = MessageView;

    open spec fn view(&self) -> MessageView {
        MessageView {
            role: self.role,
            content: self.content@,
            tools: self.tools@,
            tool_uses: self.tool_uses.deep_view(),
            tool_returns: self.tool_returns.deep_view(),
            cache_point: self.cache_point,
        }
    }
}

impl DeepView for Message {
    type V = MessageView;

    open spec fn deep_view(&self) -> MessageView {
        self@
    }
}

impl MessageView {
    /// A message of text alone.
    pub open spec fn plain(role: Role, content: Seq<char>) -> MessageView {
        MessageView {
            role,
            content,
            tools: Seq::empty(),
            tool_uses: Seq::empty(),
            tool_returns: Seq::empty(),
            cache_point: false,
        }
    }
}

impl Message {
    /// A message of text alone.
    pub fn plain(role: Role, content: String) -> (message: Message)
        ensures
            message@ == MessageView::plain(role, content@),
    {
        let message = Message {
            role,
            content,
            tools: Vec::new(),
            tool_uses: Vec::new(),
            tool_returns: Vec::new(),
            cache_point: false,
        };
        assert(message@ =~~= MessageView::plain(role, content@));
        message
    }
}

/// How many messages of a conversation may carry a cache point.
pub const MAX_CACHE_POINTS: usize = 4;

/// Whether message `i` is to carry a cache point if there is room for it: it is
/// the last one, or it carried one before.
pub open spec fn wants_cache_point(messages: Seq<MessageView>, i: int) -> bool {
    i == messages.len() - 1 || messages[i].cache_point
}

/// How many messages from `i` on want a cache point.
pub open spec fn wanted_from(messages: Seq<MessageView>, i: int) -> nat
    decreases messages.len() - i,
{
    if i >= messages.len() {
        0
    } else {
        wanted_from(messages, i + 1) + (if wants_cache_point(messages, i) {
            1nat
        } else {
            0nat
        })
    }
}

/// How many messages from `i` on carry a cache point.
pub open spec fn cache_points_from(messages: Seq<MessageView>, i: int) -> nat
    decreases messages.len() - i,
{
    if i >= messages.len() {
        0
    } else {
        cache_points_from(messages, i + 1) + (if messages[i].cache_point {
            1nat
        } else {
            0nat
        })
    }
}

/// How many messages carry a cache point.
pub open spec fn cache_points(messages: Seq<MessageView>) -> nat {
    cache_points_from(messages, 0)
}

/// The messages with a cache point on the last one, and on the newest of the
/// others that had one, as many as there is room for. Nothing else changes.
pub open spec fn with_cache_points(messages: Seq<MessageView>) -> Seq<MessageView> {
    Seq::new(
        messages.len(),
        |i: int|
            MessageView {
                cache_point: wants_cache_point(messages, i) && wanted_from(messages, i)
                    <= MAX_CACHE_POINTS,
                ..messages[i]
            },
    )
}

/// Puts a cache point on the last message and takes those away that are too old
/// to be kept.
pub fn refresh_cache_points(messages: &mut Vec<Message>)
    requires
        old(messages).len() > 0,
    ensures
        final(messages).deep_view() == with_cache_points(old(messages).deep_view()),
{
    let ghost given = messages.deep_view();
    let n: usize = messages.len();
    messages[n - 1].cache_point = true;
    let mut count: usize = 0;
    let mut i: usize = n;
    while i > 0
        invariant
            i <= n,
            n == messages.len(),
            n == given.len(),
            n > 0,
            count == wanted_from(given, i as int),
            count <= n - i,
            forall|j: int|
                0 <= j < i ==> (#[trigger] messages[j])@ == (MessageView {
                    cache_point: wants_cache_point(given, j),
                    ..given[j]
                }),
            forall|j: int|
                i <= j < n ==> (#[trigger] messages[j])@ == with_cache_points(given)[j],
        decreases i,
    {
        i = i - 1;
        if messages[i].cache_point {
            count = count + 1;
        }
        if count > MAX_CACHE_POINTS {
            messages[i].cache_point = false;
        }
    }
    assert(messages.deep_view() =~= with_cache_points(given));
}

proof fn kept_cache_points(messages: Seq<MessageView>, i: int)
    requires
        0 <= i <= messages.len(),
    ensures
        cache_points_from(with_cache_points(messages), i) == if wanted_from(messages, i)
            <= MAX_CACHE_POINTS {
            wanted_from(messages, i)
        } else {
            MAX_CACHE_POINTS as nat
        },
    decreases messages.len() - i,
{
    if i < messages.len() {
        kept_cache_points(messages, i + 1);
    }
}

proof fn wanted_shrinks(messages: Seq<MessageView>, i: int, j: int)
    requires
        0 <= i <= j <= messages.len(),
    ensures
        wanted_from(messages, j) <= wanted_from(messages, i),
    decreases j - i,
{
    if i < j {
        wanted_shrinks(messages, i + 1, j);
    }
}

/// After a refresh no more than four messages carry a cache point: all that
/// wanted one if they were so few, and exactly four otherwise.
pub proof fn cache_points_stay_within_the_limit(messages: Seq<MessageView>)
    ensures
        cache_points(with_cache_points(messages)) <= MAX_CACHE_POINTS,
        cache_points(with_cache_points(messages)) == if wanted_from(messages, 0)
            <= MAX_CACHE_POINTS {
            wanted_from(messages, 0)
        } else {
            MAX_CACHE_POINTS as nat
        },
{
    kept_cache_points(messages, 0);
}

/// A refresh marks the last message, keeps newer cache points before older ones
/// and makes none but the last.
pub proof fn the_newest_cache_points_are_kept(messages: Seq<MessageView>, i: int, j: int)
    requires
        0 <= i < j < messages.len(),
    ensures
        with_cache_points(messages).last().cache_point,
        with_cache_points(messages)[i].cache_point ==> messages[i].cache_point,
        with_cache_points(messages)[i].cache_point && wants_cache_point(messages, j)
            ==> with_cache_points(messages)[j].cache_point,
{
    wanted_shrinks(messages, i, j);
    reveal_with_fuel(wanted_from, 2);
}

proof fn refreshed_wants_what_it_has(messages: Seq<MessageView>, i: int)
    requires
        0 <= i <= messages.len(),
    ensures
        wanted_from(with_cache_points(messages), i) == cache_points_from(
            with_cache_points(messages),
            i,
        ),
    decreases messages.len() - i,
{
    if i < messages.len() {
        refreshed_wants_what_it_has(messages, i + 1);
        assert(wanted_from(messages, messages.len() as int) == 0);
        assert(with_cache_points(messages)[messages.len() - 1].cache_point);
    }
}

/// Refreshing again changes nothing.
pub proof fn refreshing_is_idempotent(messages: Seq<MessageView>)
    ensures
        with_cache_points(with_cache_points(messages)) == with_cache_points(messages),
{
    let once = with_cache_points(messages);
    assert forall|i: int| 0 <= i < once.len() implies with_cache_points(once)[i] == once[i] by {
        kept_cache_points(messages, i);
        refreshed_wants_what_it_has(messages, i);
        if i == once.len() - 1 {
            assert(wanted_from(messages, i + 1) == 0);
        }
    }
    assert(with_cache_points(once) =~= once);
}

/// A refresh changes nothing but cache points.
pub proof fn refreshing_keeps_the_messages(messages: Seq<MessageView>, i: int)
    requires
        0 <= i < messages.len(),
    ensures
        with_cache_points(messages).len() == messages.len(),
        with_cache_points(messages)[i] == (MessageView {
            cache_point: with_cache_points(messages)[i].cache_point,
            ..messages[i]
        }),
{
}

/// How many of the messages carry a cache point.
pub open spec fn marked(messages: Seq<MessageView>) -> nat {
    messages.filter(|message: MessageView| message.cache_point).len()
}

proof fn counts_without_the_last(messages: Seq<MessageView>, i: int)
    requires
        messages.len() > 0,
        0 <= i < messages.len(),
    ensures
        wanted_from(messages, i) == cache_points_from(messages.drop_last(), i) + 1,
        cache_points_from(messages, i) == cache_points_from(messages.drop_last(), i) + (
        if messages.last().cache_point {
            1nat
        } else {
            0nat
        }),
    decreases messages.len() - i,
{
    reveal_with_fuel(wanted_from, 2);
    reveal_with_fuel(cache_points_from, 2);
    if i < messages.len() - 1 {
        counts_without_the_last(messages, i + 1);
    }
}

proof fn counts_agree(messages: Seq<MessageView>)
    ensures
        cache_points(messages) == marked(messages),
    decreases messages.len(),
{
    reveal(Seq::filter);
    if messages.len() > 0 {
        counts_agree(messages.drop_last());
        counts_without_the_last(messages, 0);
    }
}

/// Of a conversation's cache points a refresh keeps as many as fit beside the one that
/// it puts on the last message, which makes four at most; and where there were no more
/// than three besides, it keeps them all.
pub proof fn four_cache_points_are_kept_at_most(messages: Seq<MessageView>, i: int)
    requires
        messages.len() > 0,
    ensures
        marked(with_cache_points(messages)) <= 4,
        marked(with_cache_points(messages)) == if marked(messages.drop_last()) < 3 {
            marked(messages.drop_last()) + 1
        } else {
            4
        },
        marked(messages.drop_last()) <= 3 && 0 <= i < messages.len() && messages[i].cache_point
            ==> with_cache_points(messages)[i].cache_point,
{
    counts_without_the_last(messages, 0);
    counts_agree(messages.drop_last());
    counts_agree(with_cache_points(messages));
    kept_cache_points(messages, 0);
    if 0 <= i < messages.len() {
        wanted_shrinks(messages, 0, i);
    }
}

/// A message of text alone has its speaker and its text, and neither tools nor calls
/// nor results nor a cache point.
pub proof fn plain_messages_are_text_alone(role: Role, content: Seq<char>)
    ensures
        MessageView::plain(role, content).role == role,
        MessageView::plain(role, content).content == content,
        MessageView::plain(role, content).tools.len() == 0,
        MessageView::plain(role, content).tool_uses.len() == 0,
        MessageView::plain(role, content).tool_returns.len() == 0,
        !MessageView::plain(role, content).cache_point,
{
}

/// The views show every part of what they are views of.
pub proof fn message_views_show_every_part(
    call: ToolCall,
    tool_use: ToolUse,
    result: ToolReturn,
    message: Message,
    request: CompletionRequest,
    i: int,
)
    ensures
        call@ == (ToolCallView { name: call.name@, id: call.id@, input: call.input@ }),
        tool_use@ == (ToolUseView {
            name: tool_use.name@,
            id: tool_use.id@,
            input: tool_use.input,
        }),
        result@ == (ToolReturnView { id: result.id@, name: result.name@, text: result.text@ }),
        message@.role == message.role && message@.content == message.content@,
        message@.tools == message.tools@ && message@.cache_point == message.cache_point,
        message@.tool_uses.len() == message.tool_uses@.len(),
        0 <= i < message.tool_uses@.len() ==> message@.tool_uses[i] == message.tool_uses@[i]@,
        message@.tool_returns.len() == message.tool_returns@.len(),
        0 <= i < message.tool_returns@.len() ==> message@.tool_returns[i]
            == message.tool_returns@[i]@,
        request@.model == request.model,
        request@.temperature_percent == request.temperature_percent,
        request@.max_tokens == request.max_tokens,
        request@.messages.len() == request.messages@.len(),
        0 <= i < request.messages@.len() ==> request@.messages[i] == request.messages@[i]@,
{
}

} // verus!
