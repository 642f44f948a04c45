//! What holds of the interpreter across inputs and jobs.

use vstd::prelude::*;

use crate::agent::{observation_step, reply_step, AgentStepView, RoundView};
use crate::context::{ExchangeView, HumanMessageView, RContextView};
use crate::gather::{
    answers_gather, file_contexts, gathered_contexts, knowledge_contexts, knowledge_file,
    FileReadView, KnowledgeReadView, ReadView,
};
use crate::job::{
    Commands, EditKind, EditRequestView, JobView, NextView, OutcomeView, PurposeView,
    ReplErrorView, StepView,
};
use crate::message::{RequestView, ToolCallView};
use crate::models::LLMType;
use crate::repl::{
    after_outcomes, agent_step_taken, command_heard_step, commit_diff_step, context_taken,
    gathered_step, input_state, input_step, planned_step, resumed_state, resumed_step, ReplView,
};
use crate::run::{RunView, Stream};
use crate::session::{
    contexts_render_in_order, history_block, knowledge_prompt, rendered_contexts, user_prompt,
};
use crate::text::trimmed;

verus! {

/// Whatever is entered and whatever comes of the jobs, no knowledge file is ever
/// loaded twice and what is kept of commands is always their output.
pub proof fn the_state_stays_well_formed(
    state: ReplView,
    command: Option<Commands>,
    text: Seq<char>,
    other: Seq<char>,
)
    requires
        state.wf(),
    ensures
        input_state(state, command).wf(),
        state.with_file(text).wf(),
        state.with_knowledge(text).wf(),
        state.without_history().wf(),
        state.with_plan(text, other).wf(),
        state.with_command(text, other).wf(),
{
    if let Some(Commands::UnloadKnowledge { title }) = command {
        state.knowledge.index_of_first_ensures(title@);
    }
}

/// An input that is no command leaves the state alone until a plan is there, and of
/// the commands each changes its own part of the state only: `remove` the files,
/// `clear-context` the files and the command outputs, `clear` the history,
/// `unload-knowledge` the knowledge and `include-recent-changes` the wish for them.
pub proof fn each_input_changes_its_own_part(state: ReplView, command: Option<Commands>)
    ensures
        ({
            let after = input_state(state, command);
            &&& after.id == state.id && after.repo_root == state.repo_root
            &&& after.config == state.config
            &&& command != Some(Commands::Clear) ==> after.exchanges == state.exchanges
            &&& !(command is Some && (command->0 is Remove || command->0 is ClearContext))
                ==> after.files == state.files
            &&& command != Some(Commands::ClearContext) ==> after.commands == state.commands
            &&& !(command is Some && command->0 is UnloadKnowledge) ==> after.knowledge
                == state.knowledge
            &&& command != Some(Commands::IncludeRecentChanges) ==> after.recent_changes
                == state.recent_changes
        }),
{
}

/// Whatever comes of the jobs that an input asks for, it leaves the state well
/// formed.
pub proof fn whole_inputs_keep_the_state_well_formed(
    state: ReplView,
    line: Seq<char>,
    command: Option<Commands>,
    outcomes: Seq<OutcomeView>,
)
    requires
        state.wf(),
    ensures
        after_outcomes(state, line, command, outcomes).0.wf(),
    decreases outcomes.len(),
{
    if outcomes.len() == 0 {
        the_state_stays_well_formed(state, command, Seq::empty(), Seq::empty());
    } else {
        whole_inputs_keep_the_state_well_formed(state, line, command, outcomes.drop_last());
    }
}

/// Only `exit` ends the interpreter: an input that is no `exit` never does, whatever
/// comes of the jobs that it asks for.
pub proof fn only_exit_exits(
    state: ReplView,
    line: Seq<char>,
    command: Option<Commands>,
    outcomes: Seq<OutcomeView>,
)
    ensures
        input_step(state, line, command).next == (NextView::Finished { exit: true })
            <==> command == Some(Commands::Exit),
        after_outcomes(state, line, command, outcomes).1.next == (NextView::Finished { exit: true })
            <==> command == Some(Commands::Exit),
    decreases outcomes.len(),
{
    if outcomes.len() > 0 {
        only_exit_exits(state, line, command, outcomes.drop_last());
        let (now, step) = after_outcomes(state, line, command, outcomes.drop_last());
        if let NextView::Await(job) = step.next {
            no_outcome_exits(now, job, outcomes.last());
        }
    }
}

/// No outcome of a job ends the interpreter.
pub proof fn no_outcome_exits(state: ReplView, job: JobView, outcome: OutcomeView)
    ensures
        resumed_step(state, job, outcome).next != (NextView::Finished { exit: true }),
{
}

/// None of the steps that follow an input's first one ends the interpreter.
pub proof fn no_later_step_exits(
    state: ReplView,
    purpose: PurposeView,
    context: Result<Seq<RContextView>, Seq<char>>,
    request: HumanMessageView,
    texts: Seq<Seq<char>>,
    text: Seq<char>,
    step: AgentStepView,
    after_edit: bool,
    run: RunView,
    stream: Stream,
    line: Option<Seq<char>>,
)
    ensures
        gathered_step(state, purpose, context, texts).next != (NextView::Finished { exit: true }),
        planned_step(state, request, text).next != (NextView::Finished { exit: true }),
        agent_step_taken(texts, step).next != (NextView::Finished { exit: true }),
        commit_diff_step(state, text, after_edit).next != (NextView::Finished { exit: true }),
        command_heard_step(run, stream, line).next != (NextView::Finished { exit: true }),
{
}

/// Which job may follow which within an input.
pub open spec fn may_follow(job: JobView, next: JobView) -> bool {
    match job {
        JobView::Describe { edit } => next is Gather && next->purpose == PurposeView::Edit(edit),
        JobView::Gather { purpose: PurposeView::Knowledge { title, .. }, .. } => {
            next is WriteKnowledge && next->WriteKnowledge_title == title
        },
        JobView::Gather { purpose: PurposeView::Edit(edit), .. } => match edit.kind {
            EditKind::Architect => next is Plan,
            EditKind::Implementer => next is Send,
        },
        JobView::Plan { .. } => next is Send,
        JobView::Send { .. } => next is Edit || next is Record,
        JobView::Edit { .. } => next is Edit || next is Send || next is Record,
        JobView::Record => next == (JobView::ReadCommitDiff { after_edit: true }),
        JobView::ReadCommitDiff { after_edit } => next is WriteCommitMessage
            && next->WriteCommitMessage_after_edit == after_edit,
        JobView::WriteCommitMessage { after_edit, .. } => next is DescribeCommit
            && next->DescribeCommit_after_edit == after_edit,
        JobView::WriteKnowledge { title, .. } => next is SaveKnowledge
            && next->SaveKnowledge_title == title && next->SaveKnowledge_file_name
            == knowledge_file(title),
        JobView::Start { command } => next == (JobView::Follow { run: RunView::fresh(command) }),
        JobView::Follow { run } => {
            ||| next is Follow && next->Follow_run.command == run.command
            ||| next is Wait && next->Wait_run.command == run.command && next->Wait_run.ended()
        },
        _ => false,
    }
}

/// Jobs follow each other in order. A request to edit code is described, its context
/// is gathered, a plan is asked for if it is to have one, the editing model is sent
/// to and edits until it is done, the working copy is recorded, and what changed is
/// described; a knowledge file is asked for and saved under its own title; a shell
/// command is started, followed until both of its streams have ended, and waited for.
/// Every other job is the last of its input.
pub proof fn jobs_follow_in_order(state: ReplView, job: JobView, outcome: OutcomeView)
    ensures
        resumed_step(state, job, outcome).next matches NextView::Await(next) ==> may_follow(
            job,
            next,
        ),
{
}

/// A job that failed changes nothing. It fails the input with its message, unless it
/// was to show a diff or to restore, which is only told of.
pub proof fn failures_change_nothing(state: ReplView, job: JobView, error: Seq<char>)
    ensures
        resumed_state(state, job, OutcomeView::Failed { error }) == state,
        !(job is ShowDiff || job is Restore) ==> resumed_step(
            state,
            job,
            OutcomeView::Failed { error },
        ) == StepView::quiet(NextView::Failed(ReplErrorView::Outside(error))),
        job is ShowDiff || job is Restore ==> resumed_step(
            state,
            job,
            OutcomeView::Failed { error },
        ).next == (NextView::Finished { exit: false }),
{
}

/// Each outcome changes its own part of the state only: a file that was found the
/// files, knowledge that was found or saved the knowledge, a plan or a restore the
/// history, and a shell command that ended the command outputs.
pub proof fn each_outcome_changes_its_own_part(
    state: ReplView,
    job: JobView,
    outcome: OutcomeView,
)
    ensures
        ({
            let after = resumed_state(state, job, outcome);
            &&& after.id == state.id && after.repo_root == state.repo_root
            &&& after.config == state.config
            &&& after.recent_changes == state.recent_changes
            &&& !(job is CheckFile) ==> after.files == state.files
            &&& !(job is CheckKnowledge || job is SaveKnowledge) ==> after.knowledge
                == state.knowledge
            &&& !(job is Plan || job is Restore) ==> after.exchanges == state.exchanges
            &&& !(job is Wait) ==> after.commands == state.commands
        }),
{
}

/// As long as no file is pending, requests to edit code are refused, and a refused
/// request changes nothing; as soon as one is, they are taken up. This holds of
/// requests with and without a plan alike.
pub proof fn editing_needs_a_pending_file(state: ReplView, line: Seq<char>, request: Vec<String>)
    ensures
        ({
            let refused = StepView::quiet(NextView::Failed(ReplErrorView::NoPendingFiles));
            let direct = Some(Commands::Implementer { request });
            &&& input_step(state, line, None) == refused <==> state.files.len() == 0
            &&& input_step(state, line, direct) == refused <==> state.files.len() == 0
            &&& input_state(state, None) == state
            &&& input_state(state, direct) == state
            &&& input_step(state, line, None) != refused ==> input_step(state, line, None)
                == StepView::quiet(
                NextView::Await(
                    JobView::Describe {
                        edit: EditRequestView { kind: EditKind::Architect, text: line },
                    },
                ),
            )
        }),
{
}

/// After the context has been cleared, requests to edit code are refused.
pub proof fn a_cleared_context_refuses_requests(state: ReplView, line: Seq<char>)
    ensures
        input_step(input_state(state, Some(Commands::ClearContext)), line, None)
            == StepView::quiet(NextView::Failed(ReplErrorView::NoPendingFiles)),
{
}

/// Removing the file that was added last takes the addition back.
pub proof fn removing_undoes_adding(state: ReplView, path: Seq<char>)
    ensures
        state.with_file(path).without_file(state.files.len() as int) == state,
{
    assert(state.files.push(path).remove(state.files.len() as int) =~= state.files);
}

/// Removing a file keeps the others, in their order.
pub proof fn removing_keeps_the_other_files(state: ReplView, index: int, i: int)
    requires
        0 <= index < state.files.len(),
        0 <= i < state.files.len() - 1,
    ensures
        state.without_file(index).files.len() == state.files.len() - 1,
        state.without_file(index).files[i] == state.files[if i < index {
            i
        } else {
            i + 1
        }],
{
}

/// Loading a knowledge file again changes nothing.
pub proof fn loading_is_idempotent(state: ReplView, title: Seq<char>)
    ensures
        state.with_knowledge(title).knowledge.contains(title),
        state.with_knowledge(title).with_knowledge(title) == state.with_knowledge(title),
{
    if !state.knowledge.contains(title) {
        assert(state.knowledge.push(title)[state.knowledge.len() as int] == title);
    }
}

/// Unloading a knowledge file takes its loading back, and as no knowledge file is
/// ever loaded twice, what is unloaded is not loaded any more.
pub proof fn unloading_undoes_loading(state: ReplView, title: Seq<char>)
    ensures
        !state.knowledge.contains(title) ==> state.with_knowledge(title).without_knowledge(title)
            == state,
        state.knowledge.no_duplicates() ==> !state.without_knowledge(
            title,
        ).knowledge.contains(title),
{
    let loaded = state.with_knowledge(title);
    loading_is_idempotent(state, title);
    loaded.knowledge.index_of_first_ensures(title);
    state.knowledge.index_of_first_ensures(title);
    if !state.knowledge.contains(title) {
        let at = loaded.knowledge.index_of_first(title)->0;
        if at < state.knowledge.len() {
            assert(state.knowledge[at] == title);
        }
        assert(loaded.knowledge.remove(at) =~= state.knowledge);
    }
}

/// Asking for recent changes twice is not asking for them at all.
pub proof fn toggling_twice_changes_nothing(state: ReplView)
    ensures
        state.with_changes_toggled().with_changes_toggled() == state,
{
}

/// Context is gathered for exactly the pending files and the loaded knowledge, and a
/// diff is asked for exactly if recent changes are wanted, which they are after
/// every other time that they were asked for.
pub proof fn requests_gather_what_is_pending(state: ReplView, purpose: PurposeView)
    ensures
        state.gather(purpose).next == NextView::Await(
            JobView::Gather {
                purpose,
                paths: state.files,
                titles: state.knowledge,
                with_diff: state.recent_changes,
            },
        ),
        state.with_changes_toggled().gather(purpose).next == NextView::Await(
            JobView::Gather {
                purpose,
                paths: state.files,
                titles: state.knowledge,
                with_diff: !state.recent_changes,
            },
        ),
{
}

/// A request that is made while recent changes are wanted carries them: it goes on
/// only with a diff, which stands last in its context as it was printed unless it is
/// blank, and if the diff could not be read, the request fails with the reason. While
/// they are not wanted, it goes on only without one.
pub proof fn wanted_changes_reach_the_request(
    state: ReplView,
    purpose: PurposeView,
    files: Seq<FileReadView>,
    knowledge: Seq<KnowledgeReadView>,
    diff: Option<ReadView>,
)
    ensures
        ({
            let job = JobView::Gather {
                purpose,
                paths: state.files,
                titles: state.knowledge,
                with_diff: state.recent_changes,
            };
            let outcome = OutcomeView::Gathered { files, knowledge, diff };
            let next = resumed_step(state, job, outcome).next;
            let answered = answers_gather(
                state.files,
                state.knowledge,
                state.recent_changes,
                files,
                knowledge,
                diff,
            );
            &&& state.gather(purpose).next == NextView::Await(job)
            &&& diff is Some != state.recent_changes ==> next == NextView::Failed(
                ReplErrorView::UnexpectedOutcome,
            )
            &&& answered ==> match diff {
                Some(ReadView::Text(printed)) => {
                    let contexts = gathered_contexts(
                        files,
                        knowledge,
                        state.commands,
                        Some(printed),
                    );
                    &&& next == context_taken(state, purpose, contexts)
                    &&& trimmed(printed).len() > 0 ==> contexts.len() > 0 && contexts.last() == (
                    RContextView::RecentChanges { diff: printed })
                },
                Some(ReadView::Failed(error)) => next == NextView::Failed(
                    ReplErrorView::Outside(error),
                ),
                None => next == context_taken(
                    state,
                    purpose,
                    gathered_contexts(files, knowledge, state.commands, None),
                ),
            }
        }),
{
}

/// Once the history has been cleared, prompts are those of a session that has none,
/// and nothing but the history is lost.
pub proof fn a_cleared_history_leaves_no_trace(
    state: ReplView,
    contexts: Seq<RContextView>,
    request: Seq<char>,
)
    ensures
        ({
            let after = input_state(state, Some(Commands::Clear));
            &&& user_prompt(after.exchanges, contexts, request, true) == user_prompt(
                state.exchanges,
                contexts,
                request,
                false,
            )
            &&& after == (ReplView { exchanges: Seq::empty(), ..state })
        }),
{
}

/// The editing model is handed a plan with the context of the request it was made
/// for, and neither the request itself nor anything that was exchanged before makes
/// a difference to it.
pub proof fn planned_edits_do_not_depend_on_the_history(
    state: ReplView,
    other: ReplView,
    request: HumanMessageView,
    other_request: HumanMessageView,
    plan: Seq<char>,
)
    requires
        state.config == other.config,
        request.context == other_request.context,
    ensures
        planned_step(state, request, plan) == planned_step(other, other_request, plan),
{
}

/// Every piece of context stands in the prompt for a request, as a whole and on its
/// own, whether the history is included or not, and in the prompt for a knowledge
/// file as well.
pub proof fn every_context_stands_in_the_prompt(
    exchanges: Seq<ExchangeView>,
    contexts: Seq<RContextView>,
    request: Seq<char>,
    include_previous_exchanges: bool,
    i: int,
)
    requires
        0 <= i < contexts.len(),
    ensures
        exists|before: Seq<char>, after: Seq<char>|
            user_prompt(exchanges, contexts, request, include_previous_exchanges)
                == #[trigger] (before + contexts[i].rendered() + seq!['\n'] + after),
        exists|before: Seq<char>, after: Seq<char>|
            knowledge_prompt(contexts, request) == #[trigger] (before + contexts[i].rendered()
                + after),
{
    every_context_stands_in_the_knowledge_prompt(contexts, request, i);
    let line_break = seq!['\n'];
    let first = contexts.take(i);
    let this = seq![contexts[i]];
    let rest = contexts.skip(i + 1);
    assert(contexts =~= first + (this + rest));
    contexts_render_in_order(first, this + rest, line_break);
    contexts_render_in_order(this, rest, line_break);
    one_context_renders_alone(contexts[i], line_break);
    let history = if include_previous_exchanges {
        history_block(exchanges)
    } else {
        Seq::empty()
    };
    regrouped(
        history,
        "<context>\n"@,
        rendered_contexts(first, line_break),
        contexts[i].rendered(),
        line_break,
        rendered_contexts(rest, line_break),
        "</context>\n"@,
        "<user_request>\n"@,
        request,
        "\n</user_request>"@,
    );
}

proof fn every_context_stands_in_the_knowledge_prompt(
    contexts: Seq<RContextView>,
    request: Seq<char>,
    i: int,
)
    requires
        0 <= i < contexts.len(),
    ensures
        exists|before: Seq<char>, after: Seq<char>|
            knowledge_prompt(contexts, request) == #[trigger] (before + contexts[i].rendered()
                + after),
{
    let none = Seq::<char>::empty();
    let first = contexts.take(i);
    let this = seq![contexts[i]];
    let rest = contexts.skip(i + 1);
    assert(contexts =~= first + (this + rest));
    contexts_render_in_order(first, this + rest, none);
    contexts_render_in_order(this, rest, none);
    one_context_renders_alone(contexts[i], none);
    let before = "<context>\n"@ + rendered_contexts(first, none);
    let after = rendered_contexts(rest, none) + "\n<user_request>\n"@ + request
        + "\n</user_request>"@;
    assert(knowledge_prompt(contexts, request) =~= before + contexts[i].rendered() + after);
}

proof fn one_context_renders_alone(context: RContextView, separator: Seq<char>)
    ensures
        rendered_contexts(seq![context], separator) == context.rendered() + separator,
{
    let alone = seq![context];
    let element = context.rendered();
    assert(alone.drop_last() =~= Seq::empty());
    assert(rendered_contexts(alone.drop_last(), separator) =~= Seq::empty());
    assert(alone.last() == context);
    assert(Seq::<char>::empty() + element + separator =~= element + separator);
}

proof fn regrouped(
    history: Seq<char>,
    opening: Seq<char>,
    earlier: Seq<char>,
    element: Seq<char>,
    separator: Seq<char>,
    later: Seq<char>,
    closing: Seq<char>,
    start: Seq<char>,
    request: Seq<char>,
    end: Seq<char>,
)
    ensures
        history + (opening + (earlier + ((element + separator) + later)) + closing + start + request
            + end) == (history + opening + earlier) + element + separator + (later + closing + start
            + request + end),
{
    assert(history + (opening + (earlier + ((element + separator) + later)) + closing + start
        + request + end) =~= (history + opening + earlier) + element + separator + (later + closing
        + start + request + end));
}

/// The output of a command that was run is part of the context of every request
/// until the context is cleared: everything that is kept of commands stands there in
/// its order, and what is added comes after it.
pub proof fn command_outputs_reach_requests(
    state: ReplView,
    command: Seq<char>,
    output: Seq<char>,
    files: Seq<FileReadView>,
    knowledge: Seq<KnowledgeReadView>,
    printed_diff: Option<Seq<char>>,
)
    ensures
        ({
            let contexts = gathered_contexts(
                files,
                knowledge,
                state.with_command(command, output).commands,
                printed_diff,
            );
            let at = file_contexts(files).len() + knowledge_contexts(knowledge).len()
                + state.commands.len();
            &&& at < contexts.len()
            &&& contexts[at as int] == (RContextView::Command { command, output })
            &&& forall|i: int|
                0 <= i < state.commands.len() ==> contexts[file_contexts(files).len()
                    + knowledge_contexts(knowledge).len() + i] == #[trigger] state.commands[i]
        }),
        ({
            let contexts = gathered_contexts(files, knowledge, state.commands, printed_diff);
            let from = file_contexts(files).len() + knowledge_contexts(knowledge).len();
            &&& from + state.commands.len() <= contexts.len()
            &&& forall|i: int|
                0 <= i < state.commands.len() ==> contexts[from + i]
                    == #[trigger] state.commands[i]
        }),
        state.with_command(command, output).without_context().commands.len() == 0,
{
}

/// A diff that was asked for and is not blank is the last piece of context, as it was
/// printed; a blank one, or one that was not asked for, leaves no trace.
pub proof fn recent_changes_come_last(
    files: Seq<FileReadView>,
    knowledge: Seq<KnowledgeReadView>,
    commands: Seq<RContextView>,
    printed: Seq<char>,
)
    ensures
        trimmed(printed).len() > 0 ==> gathered_contexts(
            files,
            knowledge,
            commands,
            Some(printed),
        ).last() == (RContextView::RecentChanges { diff: printed }),
        trimmed(printed).len() == 0 ==> gathered_contexts(files, knowledge, commands, Some(printed))
            == gathered_contexts(files, knowledge, commands, None),
{
}

/// When the editing loop is done, be it because the model makes no more calls or
/// because it asks to be done, the working copy is recorded; and it is never
/// recorded before.
pub proof fn finished_edits_are_recorded(
    request: RequestView,
    body: Seq<char>,
    calls: Seq<ToolCallView>,
    round: RoundView,
    text: Seq<char>,
)
    ensures
        ({
            let (printed, step) = reply_step(request, body, calls);
            agent_step_taken(printed, step).next == NextView::Await(JobView::Record)
                <==> step is Finished
        }),
        ({
            let (printed, step) = observation_step(round, text);
            agent_step_taken(printed, step).next == NextView::Await(JobView::Record)
                <==> step is Finished
        }),
{
}

/// Without changes there is nothing to describe: the matter ends with the diff
/// exactly if it is blank, and otherwise a message is asked for if the model that
/// writes them can be reached.
pub proof fn only_changes_are_described(state: ReplView, printed: Seq<char>, after_edit: bool)
    ensures
        ({
            let next = commit_diff_step(state, printed, after_edit).next;
            let model = state.config.spec_config_for_llm(LLMType::O3MiniHigh);
            &&& next is Finished <==> trimmed(printed).len() == 0
            &&& next is Failed <==> trimmed(printed).len() > 0 && model is Err
            &&& trimmed(printed).len() > 0 && model is Ok ==> next is Await && next->Await_0
                is WriteCommitMessage
        }),
{
}

} // verus!
