//! What an input comes to in the end, over all that may come of its jobs.

use vstd::prelude::*;

use crate::agent::{
    completion_ends_the_loop_wherever_it_stands, editor_calls_are_carried_out,
    only_unknown_tools_fail, replies_are_shown, results_are_sent_back, AgentErrorView, RoundView,
};
use crate::context::{ExchangeView, HumanMessageView, RContextView};
use crate::gather::{
    answers_gather, file_errors, gathered_contexts, knowledge_errors, FileReadView,
    KnowledgeReadView, ReadView,
};
use crate::inputs::{only_asks, only_says};
use crate::job::{
    Commands, EditKind, EditRequestView, JobView, LineView, NextView, OutcomeView, PurposeView,
    ReplErrorView,
};
use crate::laws::every_context_stands_in_the_prompt;
use crate::message::{RequestView, ToolCallView, ToolReturnView};
use crate::models::LLMType;
use crate::repl::{
    after_outcomes, commit_diff_step, context_taken, input_state, input_step, planned_step,
    resumed_state, resumed_step, ReplView,
};
use crate::run::{
    a_transcript_is_complete, lines_heard, what_was_heard, CommandExit, RunView, Stream,
};
use crate::session::{
    every_prompt_ends_with_the_request, knowledge_prompt, puts, requests_put_their_prompts,
    user_prompt, COMMIT_PROMPT, DEVELOPER_PROMPT, KNOWLEDGE_PROMPT,
};
use crate::text::{holds_text, is_cut_from, joined, trimmed, trimming_leaves_the_inner_text};

verus! {

/// An input starts with its first step, and every outcome goes to the job that was
/// asked for last; once nothing is asked for any more, nothing changes any more.
pub proof fn outcomes_go_to_the_job_asked_for(
    state: ReplView,
    line: Seq<char>,
    command: Option<Commands>,
    outcomes: Seq<OutcomeView>,
    outcome: OutcomeView,
)
    ensures
        after_outcomes(state, line, command, Seq::empty()) == (
            input_state(state, command),
            input_step(state, line, command),
        ),
        ({
            let (now, step) = after_outcomes(state, line, command, outcomes);
            after_outcomes(state, line, command, outcomes.push(outcome)) == match step.next {
                NextView::Await(job) => (
                    resumed_state(now, job, outcome),
                    resumed_step(now, job, outcome),
                ),
                _ => (now, step),
            }
        }),
{
    assert(outcomes.push(outcome).drop_last() =~= outcomes);
}

/// Whether every one of the pieces stands in the text, as a whole.
pub open spec fn holds_all(text: Seq<char>, contexts: Seq<RContextView>) -> bool {
    forall|i: int|
        0 <= i < contexts.len() ==> holds_text(text, (#[trigger] contexts[i]).rendered())
}

proof fn prompts_hold_their_contexts(
    exchanges: Seq<ExchangeView>,
    contexts: Seq<RContextView>,
    request: Seq<char>,
    include_previous_exchanges: bool,
)
    ensures
        holds_all(
            user_prompt(exchanges, contexts, request, include_previous_exchanges),
            contexts,
        ),
        holds_all(knowledge_prompt(contexts, request), contexts),
{
    let prompt = user_prompt(exchanges, contexts, request, include_previous_exchanges);
    let knowledge = knowledge_prompt(contexts, request);
    assert forall|i: int| 0 <= i < contexts.len() implies holds_text(
        prompt,
        (#[trigger] contexts[i]).rendered(),
    ) && holds_text(knowledge, contexts[i].rendered()) by {
        every_context_stands_in_the_prompt(
            exchanges,
            contexts,
            request,
            include_previous_exchanges,
            i,
        );
        let element = contexts[i].rendered();
        let (before, after) = choose|before: Seq<char>, after: Seq<char>|
            prompt == #[trigger] (before + element + seq!['\n'] + after);
        assert(prompt =~= before + element + (seq!['\n'] + after));
    }
}

/// The context that was gathered reaches the model that the request is for, every piece
/// of it as a whole, together with the text that was asked: a request for knowledge and
/// one that is to be planned reach the planning model, the latter with the history and
/// with what was planned for kept at hand, and one that is to be carried out directly
/// the editing model, with the history. If the model cannot be reached, the input fails
/// for it.
pub proof fn gathered_context_reaches_the_model(
    state: ReplView,
    title: Seq<char>,
    text: Seq<char>,
    contexts: Seq<RContextView>,
)
    ensures
        ({
            let next = context_taken(state, PurposeView::Knowledge { title, text }, contexts);
            match state.config.spec_config_for_llm(LLMType::O3MiniHigh) {
                Ok(model) => {
                    &&& next is Await && next->Await_0 is WriteKnowledge
                    &&& next->Await_0->WriteKnowledge_title == title
                    &&& next->Await_0->WriteKnowledge_completion.model == model
                    &&& puts(
                        next->Await_0->WriteKnowledge_completion,
                        KNOWLEDGE_PROMPT@,
                        knowledge_prompt(contexts, text),
                    )
                    &&& holds_all(
                        next->Await_0->WriteKnowledge_completion.messages[1].content,
                        contexts,
                    )
                },
                Err(error) => next == NextView::Failed(ReplErrorView::KnowledgeModel(error)),
            }
        }),
        ({
            let edit = EditRequestView { kind: EditKind::Architect, text };
            let next = context_taken(state, PurposeView::Edit(edit), contexts);
            match state.config.spec_config_for_llm(LLMType::O3MiniHigh) {
                Ok(model) => {
                    &&& next is Await && next->Await_0 is Plan
                    &&& next->Await_0->request.user_request == text
                    &&& next->Await_0->request.context == contexts
                    &&& next->Await_0->Plan_completion.model == model
                    &&& puts(
                        next->Await_0->Plan_completion,
                        DEVELOPER_PROMPT@,
                        user_prompt(state.exchanges, contexts, text, true),
                    )
                    &&& holds_all(next->Await_0->Plan_completion.messages[1].content, contexts)
                },
                Err(error) => next == NextView::Failed(ReplErrorView::Config(error)),
            }
        }),
        ({
            let edit = EditRequestView { kind: EditKind::Implementer, text };
            let next = context_taken(state, PurposeView::Edit(edit), contexts);
            match state.config.spec_config_for_llm(LLMType::ClaudeSonnet) {
                Ok(model) => {
                    &&& next is Await && next->Await_0 is Send
                    &&& next->Await_0->Send_completion.model == model
                    &&& puts(
                        next->Await_0->Send_completion,
                        "You are an expert software engineer."@,
                        user_prompt(state.exchanges, contexts, text, true),
                    )
                    &&& holds_all(next->Await_0->Send_completion.messages[1].content, contexts)
                },
                Err(error) => next == NextView::Failed(ReplErrorView::Config(error)),
            }
        }),
{
    prompts_hold_their_contexts(state.exchanges, contexts, text, true);
    if let Ok(model) = state.config.spec_config_for_llm(LLMType::O3MiniHigh) {
        requests_put_their_prompts(model, state.exchanges, contexts, text);
    }
    if let Ok(model) = state.config.spec_config_for_llm(LLMType::ClaudeSonnet) {
        let prompt = user_prompt(state.exchanges, contexts, text, true);
        requests_put_their_prompts(model, state.exchanges, contexts, prompt);
    }
}

/// A plan is handed to the editing model together with the whole context of the request
/// that it was made for and without the history: what the model reads is the prompt for
/// the plan in that context, every piece of the context stands in it, and it ends with
/// the plan. If the model cannot be reached, the input fails for it.
pub proof fn a_plan_reaches_the_editor_with_its_context(
    state: ReplView,
    request: HumanMessageView,
    plan: Seq<char>,
)
    ensures
        planned_step(state, request, plan).lines.len() == 0,
        ({
            let next = planned_step(state, request, plan).next;
            match state.config.spec_config_for_llm(LLMType::ClaudeSonnet) {
                Ok(model) => {
                    &&& next is Await && next->Await_0 is Send
                    &&& next->Await_0->Send_completion.model == model
                    &&& puts(
                        next->Await_0->Send_completion,
                        "You are an expert software engineer."@,
                        user_prompt(state.exchanges, request.context, plan, false),
                    )
                    &&& holds_all(
                        next->Await_0->Send_completion.messages[1].content,
                        request.context,
                    )
                    &&& ("<user_request>\n"@ + plan + "\n</user_request>"@).is_suffix_of(
                        next->Await_0->Send_completion.messages[1].content,
                    )
                },
                Err(error) => next == NextView::Failed(ReplErrorView::Config(error)),
            }
        }),
{
    let prompt = user_prompt(state.exchanges, request.context, plan, false);
    assert(prompt =~= crate::session::request_block(request.context, plan));
    prompts_hold_their_contexts(state.exchanges, request.context, plan, false);
    every_prompt_ends_with_the_request(state.exchanges, request.context, plan, false);
    if let Ok(model) = state.config.spec_config_for_llm(LLMType::ClaudeSonnet) {
        requests_put_their_prompts(model, state.exchanges, request.context, prompt);
    }
}

/// Once the context of a request has been read, what could not be read is told on the
/// standard error, the files first, whatever else comes of the request; and the request
/// goes on with what could be read, or fails with the reason why its diff could not.
pub proof fn reading_errors_are_told(
    state: ReplView,
    purpose: PurposeView,
    paths: Seq<Seq<char>>,
    titles: Seq<Seq<char>>,
    with_diff: bool,
    files: Seq<FileReadView>,
    knowledge: Seq<KnowledgeReadView>,
    diff: Option<ReadView>,
)
    requires
        answers_gather(paths, titles, with_diff, files, knowledge, diff),
    ensures
        ({
            let job = JobView::Gather { purpose, paths, titles, with_diff };
            let outcome = OutcomeView::Gathered { files, knowledge, diff };
            let step = resumed_step(state, job, outcome);
            let errors = file_errors(files) + knowledge_errors(knowledge);
            &&& resumed_state(state, job, outcome) == state
            &&& step.lines.len() == errors.len()
            &&& forall|i: int|
                0 <= i < errors.len() ==> (#[trigger] step.lines[i]) == LineView::Error(errors[i])
            &&& diff matches Some(ReadView::Failed(error)) ==> step.next == NextView::Failed(
                ReplErrorView::Outside(error),
            )
            &&& diff matches Some(ReadView::Text(printed)) ==> step.next == context_taken(
                state,
                purpose,
                gathered_contexts(files, knowledge, state.commands, Some(printed)),
            )
            &&& diff is None ==> step.next == context_taken(
                state,
                purpose,
                gathered_contexts(files, knowledge, state.commands, None),
            )
        }),
{
}

/// What a diff printed, if it was read.
pub open spec fn printed_by(diff: Option<ReadView>) -> Option<Seq<char>> {
    match diff {
        Some(ReadView::Text(printed)) => Some(printed),
        _ => None,
    }
}

/// A line that is no command is dealt with in this order, as long as nothing fails: the
/// change is described with it, its context is gathered, a plan is asked for with the
/// history, and the editing model is sent the plan with every piece of that context.
/// When the plan is there, the line and the plan stand at the end of the history, and
/// nothing else has changed.
pub proof fn a_request_is_planned_and_handed_on(
    state: ReplView,
    line: Seq<char>,
    files: Seq<FileReadView>,
    knowledge: Seq<KnowledgeReadView>,
    diff: Option<ReadView>,
    plan: Seq<char>,
)
    requires
        state.files.len() > 0,
        answers_gather(
            state.files,
            state.knowledge,
            state.recent_changes,
            files,
            knowledge,
            diff,
        ),
        !(diff matches Some(ReadView::Failed(_))),
        state.config.spec_config_for_llm(LLMType::O3MiniHigh) is Ok,
        state.config.spec_config_for_llm(LLMType::ClaudeSonnet) is Ok,
    ensures
        ({
            let described = seq![OutcomeView::Described];
            let gathered = described.push(OutcomeView::Gathered { files, knowledge, diff });
            let planned = gathered.push(OutcomeView::Planned { text: plan });
            let contexts = gathered_contexts(files, knowledge, state.commands, printed_by(diff));
            let first = after_outcomes(state, line, None, Seq::empty());
            let second = after_outcomes(state, line, None, described);
            let third = after_outcomes(state, line, None, gathered);
            let last = after_outcomes(state, line, None, planned);
            &&& only_asks(
                first.1,
                JobView::Describe {
                    edit: EditRequestView { kind: EditKind::Architect, text: line },
                },
            )
            &&& only_asks(
                second.1,
                JobView::Gather {
                    purpose: PurposeView::Edit(
                        EditRequestView { kind: EditKind::Architect, text: line },
                    ),
                    paths: state.files,
                    titles: state.knowledge,
                    with_diff: state.recent_changes,
                },
            )
            &&& third.1.next is Await && third.1.next->Await_0 is Plan
            &&& puts(
                third.1.next->Await_0->Plan_completion,
                DEVELOPER_PROMPT@,
                user_prompt(state.exchanges, contexts, line, true),
            )
            &&& holds_all(third.1.next->Await_0->Plan_completion.messages[1].content, contexts)
            &&& first.0 == state && second.0 == state && third.0 == state
            &&& last.0 == (ReplView {
                exchanges: state.exchanges.push(ExchangeView::HumanMessage(line)).push(
                    ExchangeView::Response(plan),
                ),
                ..state
            })
            &&& last.1.next is Await && last.1.next->Await_0 is Send
            &&& puts(
                last.1.next->Await_0->Send_completion,
                "You are an expert software engineer."@,
                user_prompt(state.exchanges, contexts, plan, false),
            )
            &&& holds_all(last.1.next->Await_0->Send_completion.messages[1].content, contexts)
        }),
{
    let described = seq![OutcomeView::Described];
    let gather = OutcomeView::Gathered { files, knowledge, diff };
    let gathered = described.push(gather);
    let contexts = gathered_contexts(files, knowledge, state.commands, printed_by(diff));
    assert(described =~= Seq::empty().push(OutcomeView::Described));
    outcomes_go_to_the_job_asked_for(state, line, None, Seq::empty(), OutcomeView::Described);
    outcomes_go_to_the_job_asked_for(state, line, None, described, gather);
    outcomes_go_to_the_job_asked_for(
        state,
        line,
        None,
        gathered,
        OutcomeView::Planned { text: plan },
    );
    gathered_context_reaches_the_model(state, line, line, contexts);
    a_plan_reaches_the_editor_with_its_context(
        state,
        HumanMessageView { user_request: line, context: contexts },
        plan,
    );
}

/// An edit that is asked for directly is dealt with in the same order but without a
/// plan: the editing model is sent the text with every piece of the gathered context and
/// with the history, which stays as it was, like everything else.
pub proof fn a_direct_request_is_handed_on(
    state: ReplView,
    line: Seq<char>,
    request: Vec<String>,
    files: Seq<FileReadView>,
    knowledge: Seq<KnowledgeReadView>,
    diff: Option<ReadView>,
)
    requires
        state.files.len() > 0,
        answers_gather(
            state.files,
            state.knowledge,
            state.recent_changes,
            files,
            knowledge,
            diff,
        ),
        !(diff matches Some(ReadView::Failed(_))),
        state.config.spec_config_for_llm(LLMType::ClaudeSonnet) is Ok,
    ensures
        ({
            let direct = Some(Commands::Implementer { request });
            let text = joined(request.deep_view());
            let described = seq![OutcomeView::Described];
            let gathered = described.push(OutcomeView::Gathered { files, knowledge, diff });
            let contexts = gathered_contexts(files, knowledge, state.commands, printed_by(diff));
            let first = after_outcomes(state, line, direct, Seq::empty());
            let second = after_outcomes(state, line, direct, described);
            let last = after_outcomes(state, line, direct, gathered);
            &&& only_asks(
                first.1,
                JobView::Describe { edit: EditRequestView { kind: EditKind::Implementer, text } },
            )
            &&& only_asks(
                second.1,
                JobView::Gather {
                    purpose: PurposeView::Edit(
                        EditRequestView { kind: EditKind::Implementer, text },
                    ),
                    paths: state.files,
                    titles: state.knowledge,
                    with_diff: state.recent_changes,
                },
            )
            &&& last.0 == state
            &&& last.1.next is Await && last.1.next->Await_0 is Send
            &&& puts(
                last.1.next->Await_0->Send_completion,
                "You are an expert software engineer."@,
                user_prompt(state.exchanges, contexts, text, true),
            )
            &&& holds_all(last.1.next->Await_0->Send_completion.messages[1].content, contexts)
        }),
{
    let direct = Some(Commands::Implementer { request });
    let text = joined(request.deep_view());
    let described = seq![OutcomeView::Described];
    let gather = OutcomeView::Gathered { files, knowledge, diff };
    let contexts = gathered_contexts(files, knowledge, state.commands, printed_by(diff));
    assert(described =~= Seq::empty().push(OutcomeView::Described));
    outcomes_go_to_the_job_asked_for(state, line, direct, Seq::empty(), OutcomeView::Described);
    outcomes_go_to_the_job_asked_for(state, line, direct, described, gather);
    gathered_context_reaches_the_model(state, text, text, contexts);
}

/// A knowledge file that is to be created is asked for with every piece of the gathered
/// context; what the model answers is saved under its title without the whitespace
/// around it, and when it is saved, it is loaded, once.
pub proof fn knowledge_is_written_and_loaded(
    state: ReplView,
    line: Seq<char>,
    title: String,
    request: Vec<String>,
    files: Seq<FileReadView>,
    knowledge: Seq<KnowledgeReadView>,
    diff: Option<ReadView>,
    answer: Seq<char>,
)
    requires
        answers_gather(
            state.files,
            state.knowledge,
            state.recent_changes,
            files,
            knowledge,
            diff,
        ),
        !(diff matches Some(ReadView::Failed(_))),
        state.config.spec_config_for_llm(LLMType::O3MiniHigh) is Ok,
    ensures
        ({
            let create = Some(Commands::CreateKnowledge { title, request });
            let gathered = seq![OutcomeView::Gathered { files, knowledge, diff }];
            let written = gathered.push(OutcomeView::KnowledgeWritten { text: answer });
            let saved = written.push(OutcomeView::KnowledgeSaved);
            let contexts = gathered_contexts(files, knowledge, state.commands, printed_by(diff));
            let second = after_outcomes(state, line, create, gathered);
            let third = after_outcomes(state, line, create, written);
            let last = after_outcomes(state, line, create, saved);
            let job = third.1.next->Await_0;
            &&& second.1.next is Await && second.1.next->Await_0 is WriteKnowledge
            &&& puts(
                second.1.next->Await_0->WriteKnowledge_completion,
                KNOWLEDGE_PROMPT@,
                knowledge_prompt(contexts, joined(request.deep_view())),
            )
            &&& holds_all(
                second.1.next->Await_0->WriteKnowledge_completion.messages[1].content,
                contexts,
            )
            &&& third.1.lines.len() == 0
            &&& third.1.next is Await && job is SaveKnowledge
            &&& job->SaveKnowledge_title == title@
            &&& job->SaveKnowledge_file_name == title@ + ".md"@
            &&& is_cut_from(job->content, answer)
            &&& third.0 == state
            &&& state.knowledge.contains(title@) ==> last.0 == state
            &&& !state.knowledge.contains(title@) ==> last.0 == (ReplView {
                knowledge: state.knowledge.push(title@),
                ..state
            })
            &&& only_says(last.1, seq!["Created and loaded knowledge file: "@ + title@])
        }),
{
    let create = Some(Commands::CreateKnowledge { title, request });
    let text = joined(request.deep_view());
    let gather = OutcomeView::Gathered { files, knowledge, diff };
    let gathered = seq![gather];
    let write = OutcomeView::KnowledgeWritten { text: answer };
    let contexts = gathered_contexts(files, knowledge, state.commands, printed_by(diff));
    assert(gathered =~= Seq::empty().push(gather));
    outcomes_go_to_the_job_asked_for(state, line, create, Seq::empty(), gather);
    outcomes_go_to_the_job_asked_for(state, line, create, gathered, write);
    outcomes_go_to_the_job_asked_for(
        state,
        line,
        create,
        gathered.push(write),
        OutcomeView::KnowledgeSaved,
    );
    gathered_context_reaches_the_model(state, title@, text, contexts);
    trimming_leaves_the_inner_text(answer, answer);
}

/// What the editing model replies is shown and carried out: without calls, or with a
/// first call for completion, the working copy is recorded; a first call for the code
/// editor is carried out; and any other fails the input. The state stays as it is.
pub proof fn replies_are_carried_out(
    state: ReplView,
    completion: RequestView,
    text: Seq<char>,
    calls: Seq<ToolCallView>,
)
    ensures
        ({
            let job = JobView::Send { completion };
            let outcome = OutcomeView::Replied { text, calls };
            let step = resumed_step(state, job, outcome);
            &&& resumed_state(state, job, outcome) == state
            &&& step.lines.len() > 0 && step.lines[0] == LineView::Print(text)
            &&& calls.len() == 0 ==> step.next == NextView::Await(JobView::Record)
                && step.lines.len() == 1
            &&& calls.len() > 0 && calls[0].name == "attempt_completion"@ ==> step.next
                == NextView::Await(JobView::Record) && step.lines == seq![
                LineView::Print(text),
                LineView::Print("done"@),
            ]
            &&& calls.len() > 0 && calls[0].name == "str_replace_editor"@ ==> step.next
                == NextView::Await(
                JobView::Edit {
                    round: RoundView {
                        request: completion,
                        body: text,
                        calls,
                        results: Seq::empty(),
                    },
                },
            ) && step.lines.len() == 1
            &&& calls.len() > 0 && calls[0].name != "attempt_completion"@ && calls[0].name
                != "str_replace_editor"@ ==> step.next == NextView::Failed(
                ReplErrorView::Agent(AgentErrorView::UnknownTool(calls[0].name)),
            ) && step.lines.len() == 1
        }),
{
    let round = RoundView { request: completion, body: text, calls, results: Seq::empty() };
    replies_are_shown(completion, text, calls);
    completion_ends_the_loop_wherever_it_stands(completion, text, calls, round, text);
    editor_calls_are_carried_out(completion, text, calls, round, text);
    if calls.len() > 0 {
        only_unknown_tools_fail(completion, text, calls, round, text, calls[0].name);
    }
    let step = resumed_step(
        state,
        JobView::Send { completion },
        OutcomeView::Replied { text, calls },
    );
    if calls.len() > 0 && calls[0].name == "attempt_completion"@ {
        assert(step.lines =~= seq![LineView::Print(text), LineView::Print("done"@)]);
    }
}

/// What the code editor gives back is kept for its call, and the next call of the same
/// reply is dealt with like the first: a call for completion has the working copy
/// recorded, one for the editor is carried out, and any other fails the input. Behind
/// the last call the conversation is sent again, with all that the calls gave back.
pub proof fn observations_are_taken_up(state: ReplView, round: RoundView, text: Seq<char>)
    requires
        round.waiting(),
    ensures
        ({
            let job = JobView::Edit { round };
            let outcome = OutcomeView::Observed { text };
            let step = resumed_step(state, job, outcome);
            let at = round.results.len() as int;
            let results = round.results.push(
                ToolReturnView { id: round.calls[at].id, name: round.calls[at].name, text },
            );
            &&& resumed_state(state, job, outcome) == state
            &&& at + 1 < round.calls.len() && round.calls[at + 1].name == "attempt_completion"@
                ==> step.next == NextView::Await(JobView::Record) && step.lines == seq![
                LineView::Print("done"@),
            ]
            &&& at + 1 < round.calls.len() && round.calls[at + 1].name == "str_replace_editor"@
                ==> only_asks(step, JobView::Edit { round: RoundView { results, ..round } })
            &&& at + 1 < round.calls.len() && round.calls[at + 1].name != "attempt_completion"@
                && round.calls[at + 1].name != "str_replace_editor"@ ==> step.lines.len() == 0
                && step.next == NextView::Failed(
                ReplErrorView::Agent(AgentErrorView::UnknownTool(round.calls[at + 1].name)),
            )
            &&& at + 1 == round.calls.len() ==> {
                &&& step.lines.len() == 0
                &&& step.next is Failed ==> step.next->Failed_0 == ReplErrorView::Agent(
                    AgentErrorView::InvalidToolInput,
                )
                &&& !(step.next is Failed) ==> {
                    &&& step.next is Await && step.next->Await_0 is Send
                    &&& step.next->Await_0->Send_completion.messages.len()
                        == round.request.messages.len() + 2
                    &&& step.next->Await_0->Send_completion.messages.last().tool_returns == results
                }
            }
        }),
{
    let at = round.results.len() as int;
    completion_ends_the_loop_wherever_it_stands(
        round.request,
        round.body,
        round.calls,
        round,
        text,
    );
    editor_calls_are_carried_out(round.request, round.body, round.calls, round, text);
    results_are_sent_back(round, text);
    if at + 1 < round.calls.len() {
        only_unknown_tools_fail(
            round.request,
            round.body,
            round.calls,
            round,
            text,
            round.calls[at + 1].name,
        );
    }
    let step = resumed_step(state, JobView::Edit { round }, OutcomeView::Observed { text });
    if at + 1 < round.calls.len() && round.calls[at + 1].name == "attempt_completion"@ {
        assert(step.lines =~= seq![LineView::Print("done"@)]);
    }
}

/// A message is asked for exactly if there are changes and the model can be reached, and
/// then with the changes as they were printed and without the history; it makes no
/// difference to what is asked whether an edit went before. Without changes this is
/// told, and after an edit also that the request is dealt with.
pub proof fn commit_messages_are_asked_for_with_the_changes(
    state: ReplView,
    other: ReplView,
    printed: Seq<char>,
    after_edit: bool,
)
    requires
        state.config == other.config,
    ensures
        ({
            let step = commit_diff_step(state, printed, after_edit);
            let alike = commit_diff_step(other, printed, !after_edit);
            let changes = RContextView::RecentChanges { diff: printed };
            match state.config.spec_config_for_llm(LLMType::O3MiniHigh) {
                Ok(model) => trimmed(printed).len() > 0 ==> {
                    &&& step.lines.len() == 0
                    &&& step.next is Await && step.next->Await_0 is WriteCommitMessage
                    &&& step.next->Await_0->WriteCommitMessage_after_edit == after_edit
                    &&& alike.next is Await && alike.next->Await_0 is WriteCommitMessage
                    &&& step.next->Await_0->WriteCommitMessage_completion
                        == alike.next->Await_0->WriteCommitMessage_completion
                    &&& step.next->Await_0->WriteCommitMessage_completion.model == model
                    &&& puts(
                        step.next->Await_0->WriteCommitMessage_completion,
                        COMMIT_PROMPT@,
                        user_prompt(
                            Seq::empty(),
                            seq![changes],
                            "Generate commit message"@,
                            false,
                        ),
                    )
                    &&& holds_text(
                        step.next->Await_0->WriteCommitMessage_completion.messages[1].content,
                        changes.rendered(),
                    )
                },
                Err(error) => trimmed(printed).len() > 0 ==> step.lines.len() == 0 && step.next
                    == NextView::Failed(ReplErrorView::Config(error)),
            }
        }),
        trimmed(printed).len() == 0 ==> only_says(
            commit_diff_step(state, printed, false),
            seq!["No changes found in git diff."@],
        ) && only_says(
            commit_diff_step(state, printed, true),
            seq!["No changes found in git diff."@, "Request processed successfully."@],
        ),
{
    let changes = RContextView::RecentChanges { diff: printed };
    let contexts = seq![changes];
    let request = "Generate commit message"@;
    prompts_hold_their_contexts(Seq::empty(), contexts, request, false);
    assert(contexts[0] == changes);
    if let Ok(model) = state.config.spec_config_for_llm(LLMType::O3MiniHigh) {
        requests_put_their_prompts(model, Seq::empty(), contexts, request);
    }
}

/// When the editing loop is done, the working copy has been recorded and its changes
/// read, they are described: the message that the model wrote is shown and given to the
/// change as it stands, and then the request is dealt with. On `commit-message` the same
/// is done of the changes at hand, and nothing more is said. The state stays as it is.
pub proof fn changes_are_described(
    state: ReplView,
    completion: RequestView,
    message: Seq<char>,
    printed: Seq<char>,
    after_edit: bool,
)
    ensures
        only_asks(
            resumed_step(state, JobView::Record, OutcomeView::Recorded),
            JobView::ReadCommitDiff { after_edit: true },
        ),
        resumed_state(state, JobView::Record, OutcomeView::Recorded) == state,
        ({
            let job = JobView::ReadCommitDiff { after_edit };
            let outcome = OutcomeView::CommitDiffRead { text: printed };
            &&& resumed_step(state, job, outcome) == commit_diff_step(state, printed, after_edit)
            &&& resumed_state(state, job, outcome) == state
        }),
        ({
            let job = JobView::WriteCommitMessage { completion, after_edit };
            let outcome = OutcomeView::CommitMessageWritten { text: message };
            let step = resumed_step(state, job, outcome);
            &&& resumed_state(state, job, outcome) == state
            &&& step.lines == seq![LineView::Print("Generated commit message:\n"@ + message)]
            &&& step.next == NextView::Await(JobView::DescribeCommit { message, after_edit })
        }),
        ({
            let job = JobView::DescribeCommit { message, after_edit };
            let step = resumed_step(state, job, OutcomeView::CommitDescribed);
            &&& resumed_state(state, job, OutcomeView::CommitDescribed) == state
            &&& after_edit ==> only_says(step, seq!["Request processed successfully."@])
            &&& !after_edit ==> only_says(step, seq![])
        }),
{
}

/// `commit-message` describes the changes at hand and leaves the state as it is: a
/// message is asked for with the changes in full, it is shown, the change is described
/// with it, and that is all.
pub proof fn commit_message_describes_the_changes(
    state: ReplView,
    line: Seq<char>,
    printed: Seq<char>,
    message: Seq<char>,
)
    requires
        trimmed(printed).len() > 0,
        state.config.spec_config_for_llm(LLMType::O3MiniHigh) is Ok,
    ensures
        ({
            let command = Some(Commands::CommitMessage);
            let read = seq![OutcomeView::CommitDiffRead { text: printed }];
            let written = read.push(OutcomeView::CommitMessageWritten { text: message });
            let described = written.push(OutcomeView::CommitDescribed);
            let second = after_outcomes(state, line, command, read);
            let third = after_outcomes(state, line, command, written);
            let last = after_outcomes(state, line, command, described);
            &&& second.1.next is Await && second.1.next->Await_0 is WriteCommitMessage
            &&& holds_text(
                second.1.next->Await_0->WriteCommitMessage_completion.messages[1].content,
                (RContextView::RecentChanges { diff: printed }).rendered(),
            )
            &&& third.1.lines == seq![LineView::Print("Generated commit message:\n"@ + message)]
            &&& third.1.next == NextView::Await(
                JobView::DescribeCommit { message, after_edit: false },
            )
            &&& only_says(last.1, seq![])
            &&& last.0 == state
        }),
{
    let command = Some(Commands::CommitMessage);
    let diff = OutcomeView::CommitDiffRead { text: printed };
    let read = seq![diff];
    let write = OutcomeView::CommitMessageWritten { text: message };
    assert(read =~= Seq::empty().push(diff));
    outcomes_go_to_the_job_asked_for(state, line, command, Seq::empty(), diff);
    outcomes_go_to_the_job_asked_for(state, line, command, read, write);
    outcomes_go_to_the_job_asked_for(
        state,
        line,
        command,
        read.push(write),
        OutcomeView::CommitDescribed,
    );
    commit_messages_are_asked_for_with_the_changes(state, state, printed, false);
}

/// A shell command that has ended is kept, however it ended: behind everything that was
/// kept of commands before stands its line, which is its words with single spaces
/// between them, and its whole transcript. How it ended is shown, and that it was kept.
pub proof fn a_command_that_ended_is_kept(state: ReplView, run: RunView, exit: CommandExit)
    ensures
        ({
            let job = JobView::Wait { run };
            let outcome = OutcomeView::CommandExited { exit };
            let after = resumed_state(state, job, outcome);
            &&& after == (ReplView { commands: after.commands, ..state })
            &&& after.commands.len() == state.commands.len() + 1
            &&& forall|i: int|
                0 <= i < state.commands.len() ==> #[trigger] after.commands[i]
                    == state.commands[i]
            &&& after.commands.last() == (RContextView::Command {
                command: joined(run.command),
                output: run.output + exit.spec_message() + seq!['\n'],
            })
            &&& only_says(
                resumed_step(state, job, outcome),
                seq![exit.spec_message(), "Command output added to context"@],
            )
        }),
{
}

/// A line that a command gives is shown at once, on the stream of the same kind, and
/// kept; the command is followed until both of its streams have ended, and then its end
/// is waited for. Nothing is heard from a stream that has ended.
pub proof fn commands_are_followed(
    state: ReplView,
    command: Seq<Seq<char>>,
    run: RunView,
    stream: Stream,
    line: Seq<char>,
)
    ensures
        only_asks(
            resumed_step(state, JobView::Start { command }, OutcomeView::CommandStarted),
            JobView::Follow {
                run: RunView {
                    command,
                    output: Seq::empty(),
                    stdout_done: false,
                    stderr_done: false,
                },
            },
        ),
        !run.stream_ended(stream) ==> {
            let job = JobView::Follow { run };
            let heard = resumed_step(
                state,
                job,
                OutcomeView::CommandHeard { stream, line: Some(line) },
            );
            let ended = resumed_step(state, job, OutcomeView::CommandHeard { stream, line: None });
            &&& heard.lines == seq![
                if stream == Stream::Stdout {
                    LineView::Print(line)
                } else {
                    LineView::Error(line)
                },
            ]
            &&& heard.next == NextView::Await(
                JobView::Follow {
                    run: RunView { output: run.output + line + seq!['\n'], ..run },
                },
            )
            &&& ended.lines.len() == 0
            &&& stream == Stream::Stdout ==> ended.next == NextView::Await(
                if run.stderr_done {
                    JobView::Wait { run: RunView { stdout_done: true, ..run } }
                } else {
                    JobView::Follow { run: RunView { stdout_done: true, ..run } }
                },
            )
            &&& stream == Stream::Stderr ==> ended.next == NextView::Await(
                if run.stdout_done {
                    JobView::Wait { run: RunView { stderr_done: true, ..run } }
                } else {
                    JobView::Follow { run: RunView { stderr_done: true, ..run } }
                },
            )
        },
        run.stream_ended(stream) ==> resumed_step(
            state,
            JobView::Follow { run },
            OutcomeView::CommandHeard { stream, line: Some(line) },
        ).next == NextView::Failed(ReplErrorView::UnexpectedOutcome),
{
}

/// Whether no stream is heard after its end.
pub open spec fn ends_last(heard: Seq<(Stream, Option<Seq<char>>)>) -> bool {
    forall|i: int, j: int|
        0 <= i < j < heard.len() ==> !((#[trigger] heard[i]).1 is None && heard[i].0 == (
        #[trigger] heard[j]).0)
}

/// The outcomes of starting a command and of hearing all this of it.
pub open spec fn heard_outcomes(heard: Seq<(Stream, Option<Seq<char>>)>) -> Seq<OutcomeView>
    decreases heard.len(),
{
    if heard.len() == 0 {
        seq![OutcomeView::CommandStarted]
    } else {
        heard_outcomes(heard.drop_last()).push(
            OutcomeView::CommandHeard { stream: heard.last().0, line: heard.last().1 },
        )
    }
}

proof fn a_run_is_followed(
    state: ReplView,
    line: Seq<char>,
    command: Vec<String>,
    heard: Seq<(Stream, Option<Seq<char>>)>,
)
    requires
        command@.len() > 0,
        ends_last(heard),
    ensures
        ({
            let (now, step) = after_outcomes(
                state,
                line,
                Some(Commands::Run { command }),
                heard_outcomes(heard),
            );
            let run = RunView::fresh(command.deep_view()).after_all(heard);
            &&& now == state
            &&& step.next == NextView::Await(
                if run.ended() {
                    JobView::Wait { run }
                } else {
                    JobView::Follow { run }
                },
            )
        }),
    decreases heard.len(),
{
    let input = Some(Commands::Run { command });
    if heard.len() == 0 {
        assert(heard_outcomes(heard) =~= Seq::empty().push(OutcomeView::CommandStarted));
        outcomes_go_to_the_job_asked_for(
            state,
            line,
            input,
            Seq::empty(),
            OutcomeView::CommandStarted,
        );
    } else {
        let before = heard.drop_last();
        let last = heard.last();
        assert(ends_last(before)) by {
            assert forall|i: int, j: int| 0 <= i < j < before.len() implies !((
            #[trigger] before[i]).1 is None && before[i].0 == (#[trigger] before[j]).0) by {
                assert(heard[i] == before[i] && heard[j] == before[j]);
            }
        }
        a_run_is_followed(state, line, command, before);
        what_was_heard(command.deep_view(), before);
        assert(!before.contains((last.0, None::<Seq<char>>))) by {
            if before.contains((last.0, None::<Seq<char>>)) {
                let i = choose|i: int|
                    0 <= i < before.len() && before[i] == (last.0, None::<Seq<char>>);
                assert(heard[i].1 is None && heard[i].0 == heard[heard.len() - 1].0);
            }
        }
        outcomes_go_to_the_job_asked_for(
            state,
            line,
            input,
            heard_outcomes(before),
            OutcomeView::CommandHeard { stream: last.0, line: last.1 },
        );
    }
}

/// `run` keeps a command that it has run: whatever the command wrote until both of its
/// streams ended, and however it ended, behind everything that was kept before stands
/// its line with every line that it wrote, in the order in which they came, and how it
/// ended. Nothing else changes.
pub proof fn a_command_that_was_run_is_kept(
    state: ReplView,
    line: Seq<char>,
    command: Vec<String>,
    heard: Seq<(Stream, Option<Seq<char>>)>,
    exit: CommandExit,
)
    requires
        command@.len() > 0,
        ends_last(heard),
        heard.contains((Stream::Stdout, None)),
        heard.contains((Stream::Stderr, None)),
    ensures
        ({
            let (now, step) = after_outcomes(
                state,
                line,
                Some(Commands::Run { command }),
                heard_outcomes(heard).push(OutcomeView::CommandExited { exit }),
            );
            &&& now == (ReplView {
                commands: state.commands.push(
                    RContextView::Command {
                        command: joined(command.deep_view()),
                        output: lines_heard(heard) + exit.spec_message() + seq!['\n'],
                    },
                ),
                ..state
            })
            &&& only_says(step, seq![exit.spec_message(), "Command output added to context"@])
        }),
{
    a_run_is_followed(state, line, command, heard);
    a_transcript_is_complete(command.deep_view(), heard, exit);
    outcomes_go_to_the_job_asked_for(
        state,
        line,
        Some(Commands::Run { command }),
        heard_outcomes(heard),
        OutcomeView::CommandExited { exit },
    );
}

} // verus!
