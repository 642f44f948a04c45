//! The interpreter: what it keeps between inputs, what each input does, and how a
//! job's outcome is taken up.

use vstd::prelude::*;

use crate::agent::{
    observation_step, reply_step, take_observation, take_reply, AgentStep, AgentStepView, ToolRound,
};
use crate::context::{ExchangeView, HumanMessage, HumanMessageView, RContext, RContextView};
use crate::gather::{
    answers_gather, build_human_message, file_errors, is_answer_to_gather, knowledge_errors,
    knowledge_file, knowledge_file_name, read_contexts, FileRead, KnowledgeRead, ReadOutcome,
};
use crate::jj::get_diff;
use crate::job::{
    err_lines, out_lines, to_err_lines, to_out_lines, Commands, EditKind, EditRequest,
    EditRequestView, Job, JobView, Line, LineView, Next, NextView, Outcome, OutcomeView, Purpose,
    PurposeView, ReplError, ReplErrorView, Step, StepView,
};
use crate::laws::the_state_stays_well_formed;
use crate::listing::{
    list_loaded_knowledge, list_pending_commands, list_pending_files, loaded_knowledge_lines,
    pending_command_lines, pending_file_lines,
};
use crate::message::{CompletionRequest, ToolCall};
use crate::models::{LLMClientConfig, LLMType};
use crate::run::{CommandExit, CommandRun, RunView, Stream};
use crate::session::{
    commit_request, editing_request, knowledge_request, plan_request, request_block, user_prompt,
    with_plan, RSession,
};
use crate::text::{clone_words, decimal, join_words, joined, position, push_decimal, trimmed};

verus! {

/// What the interpreter keeps between inputs.
#[derive(Debug)]
pub struct Repl {
    pub session: RSession,
    pub config: LLMClientConfig,
    pub pending_file_paths: Vec<String>,
    pub pending_command_contexts: Vec<RContext>,
    pub loaded_knowledge: Vec<String>,
    pub recent_changes_flag: bool,
}

/// The contents of a [`Repl`].
#[verifier::ext_equal]
pub struct ReplView {
    pub id: uuid::Uuid,
    pub repo_root: Seq<char>,
    pub config: LLMClientConfig,
    pub exchanges: Seq<ExchangeView>,
    pub files: Seq<Seq<char>>,
    pub commands: Seq<RContextView>,
    pub knowledge: Seq<Seq<char>>,
    pub recent_changes: bool,
}

impl View for Repl {
    type V = ReplView;

    open spec fn view(&self) -> ReplView {
        ReplView {
            id: self.session.id,
            repo_root: self.session.repo_root@,
            config: self.config,
            exchanges: self.session.exchanges.deep_view(),
            files: self.pending_file_paths.deep_view(),
            commands: self.pending_command_contexts.deep_view(),
            knowledge: self.loaded_knowledge.deep_view(),
            recent_changes: self.recent_changes_flag,
        }
    }
}

impl ReplView {
    /// What holds between inputs: no knowledge file is loaded twice, and what is
    /// kept of commands is their output.
    pub open spec fn wf(self) -> bool {
        &&& self.knowledge.no_duplicates()
        &&& forall|i: int| 0 <= i < self.commands.len() ==> (#[trigger] self.commands[i]) is Command
    }

    /// With one more pending file.
    pub open spec fn with_file(self, path: Seq<char>) -> ReplView {
        ReplView { files: self.files.push(path), ..self }
    }

    /// Without the pending file at `index`, if there is one.
    pub open spec fn without_file(self, index: int) -> ReplView {
        if 0 <= index < self.files.len() {
            ReplView { files: self.files.remove(index), ..self }
        } else {
            self
        }
    }

    /// Without pending files and command outputs.
    pub open spec fn without_context(self) -> ReplView {
        ReplView { files: Seq::empty(), commands: Seq::empty(), ..self }
    }

    /// Without history.
    pub open spec fn without_history(self) -> ReplView {
        ReplView { exchanges: Seq::empty(), ..self }
    }

    /// With the knowledge file loaded.
    pub open spec fn with_knowledge(self, title: Seq<char>) -> ReplView {
        if self.knowledge.contains(title) {
            self
        } else {
            ReplView { knowledge: self.knowledge.push(title), ..self }
        }
    }

    /// With the knowledge file unloaded.
    pub open spec fn without_knowledge(self, title: Seq<char>) -> ReplView {
        ReplView { knowledge: self.knowledge.remove_value(title), ..self }
    }

    /// With recent changes wanted if they were not, and the other way round.
    pub open spec fn with_changes_toggled(self) -> ReplView {
        ReplView { recent_changes: !self.recent_changes, ..self }
    }

    /// With the output of one more command.
    pub open spec fn with_command(self, command: Seq<char>, output: Seq<char>) -> ReplView {
        ReplView { commands: self.commands.push(RContextView::Command { command, output }), ..self }
    }

    /// With a request and its plan in the history.
    pub open spec fn with_plan(self, request: Seq<char>, plan: Seq<char>) -> ReplView {
        ReplView { exchanges: with_plan(self.exchanges, request, plan), ..self }
    }

    /// The job that gathers the context of a request.
    pub open spec fn gather(self, purpose: PurposeView) -> StepView {
        StepView::quiet(
            NextView::Await(
                JobView::Gather {
                    purpose,
                    paths: self.files,
                    titles: self.knowledge,
                    with_diff: self.recent_changes,
                },
            ),
        )
    }

    /// The start of an editing request: it is refused as long as no file is
    /// pending.
    pub open spec fn edit(self, request: EditRequestView) -> StepView {
        if self.files.len() == 0 {
            StepView::quiet(NextView::Failed(ReplErrorView::NoPendingFiles))
        } else {
            StepView::quiet(NextView::Await(JobView::Describe { edit: request }))
        }
    }
}

/// What an input does to the state. Inputs that are no command are requests.
pub open spec fn input_state(state: ReplView, command: Option<Commands>) -> ReplView {
    match command {
        Some(Commands::Remove { index }) => state.without_file(index as int),
        Some(Commands::ClearContext) => state.without_context(),
        Some(Commands::Clear) => state.without_history(),
        Some(Commands::UnloadKnowledge { title }) => state.without_knowledge(title@),
        Some(Commands::IncludeRecentChanges) => state.with_changes_toggled(),
        _ => state,
    }
}

/// What is said and done first for an input.
pub open spec fn input_step(
    state: ReplView,
    line: Seq<char>,
    command: Option<Commands>,
) -> StepView {
    match command {
        None => state.edit(EditRequestView { kind: EditKind::Architect, text: line }),
        Some(Commands::Exit) => StepView::quiet(NextView::Finished { exit: true }),
        Some(Commands::Context) => StepView {
            lines: out_lines(
                pending_file_lines(state.files) + loaded_knowledge_lines(state.knowledge)
                    + pending_command_lines(state.commands),
            ),
            next: NextView::Finished { exit: false },
        },
        Some(Commands::Add { file_path }) => StepView::quiet(
            NextView::Await(JobView::CheckFile { path: file_path@ }),
        ),
        Some(Commands::Remove { index }) => StepView::says(
            if index < state.files.len() {
                "Removed file at index "@ + decimal(index as nat)
            } else {
                "Index "@ + decimal(index as nat) + " is out of range"@
            },
        ),
        Some(Commands::ClearContext) => StepView::says(
            "Cleared all pending files and command outputs"@,
        ),
        Some(Commands::Clear) => StepView::says("Cleared exchange history."@),
        Some(Commands::CreateKnowledge { title, request }) => state.gather(
            PurposeView::Knowledge { title: title@, text: joined(request.deep_view()) },
        ),
        Some(Commands::LoadKnowledge { title }) => StepView::quiet(
            NextView::Await(
                JobView::CheckKnowledge { title: title@, file_name: knowledge_file(title@) },
            ),
        ),
        Some(Commands::UnloadKnowledge { title }) => StepView::says(
            if state.knowledge.contains(title@) {
                "Unloaded knowledge file: "@ + title@
            } else {
                "Knowledge file not loaded: "@ + title@
            },
        ),
        Some(Commands::ListKnowledge) => StepView {
            lines: out_lines(loaded_knowledge_lines(state.knowledge)),
            next: NextView::Finished { exit: false },
        },
        Some(Commands::Implementer { request }) => state.edit(
            EditRequestView { kind: EditKind::Implementer, text: joined(request.deep_view()) },
        ),
        Some(Commands::IncludeRecentChanges) => StepView::says(
            if state.recent_changes {
                "Recent changes will not be included in next request"@
            } else {
                "Recent changes will be included in next request"@
            },
        ),
        Some(Commands::Diff) => StepView::quiet(NextView::Await(JobView::ShowDiff)),
        Some(Commands::CommitMessage) => StepView::quiet(
            NextView::Await(JobView::ReadCommitDiff { after_edit: false }),
        ),
        Some(Commands::Run { command }) => if command.len() == 0 {
            StepView::says("No command provided."@)
        } else {
            StepView::quiet(NextView::Await(JobView::Start { command: command.deep_view() }))
        },
        Some(Commands::Exec { command }) => if command.len() == 0 {
            StepView::says("No command provided."@)
        } else {
            StepView::quiet(
                NextView::Await(
                    JobView::Exec {
                        program: command.deep_view().first(),
                        args: command.deep_view().drop_first(),
                    },
                ),
            )
        },
        Some(Commands::Jj { args }) => StepView::quiet(
            NextView::Await(JobView::Jj { args: args.deep_view() }),
        ),
        Some(Commands::Restore) => StepView::quiet(NextView::Await(JobView::Restore)),
        Some(Commands::Help) => StepView::quiet(NextView::Await(JobView::PrintHelp)),
    }
}

/// What is said when a file that is to be added was looked for.
pub open spec fn file_checked_step(path: Seq<char>, exists: bool) -> StepView {
    StepView::says(
        if exists {
            "Added file to pending context: "@ + path
        } else {
            "File not found: "@ + path
        },
    )
}

/// What is said when a knowledge file that is to be loaded was looked for.
pub open spec fn knowledge_checked_step(
    state: ReplView,
    title: Seq<char>,
    exists: bool,
) -> StepView {
    StepView::says(
        if !exists {
            "Knowledge file not found: "@ + title
        } else if state.knowledge.contains(title) {
            "Knowledge file already loaded: "@ + title
        } else {
            "Loaded knowledge file: "@ + title
        },
    )
}

/// What is done with a request and its context.
pub open spec fn context_taken(
    state: ReplView,
    purpose: PurposeView,
    context: Seq<RContextView>,
) -> NextView {
    match purpose {
        PurposeView::Knowledge { title, text } => match state.config.spec_config_for_llm(
            LLMType::O3MiniHigh,
        ) {
            Ok(model) => NextView::Await(
                JobView::WriteKnowledge {
                    title,
                    completion: knowledge_request(model, context, text),
                },
            ),
            Err(error) => NextView::Failed(ReplErrorView::KnowledgeModel(error)),
        },
        PurposeView::Edit(EditRequestView { kind: EditKind::Architect, text }) => {
            match state.config.spec_config_for_llm(LLMType::O3MiniHigh) {
                Ok(model) => NextView::Await(
                    JobView::Plan {
                        request: HumanMessageView { user_request: text, context },
                        completion: plan_request(model, state.exchanges, context, text),
                    },
                ),
                Err(error) => NextView::Failed(ReplErrorView::Config(error)),
            }
        },
        PurposeView::Edit(EditRequestView { kind: EditKind::Implementer, text }) => {
            match state.config.spec_config_for_llm(LLMType::ClaudeSonnet) {
                Ok(model) => NextView::Await(
                    JobView::Send {
                        completion: editing_request(
                            model,
                            user_prompt(state.exchanges, context, text, true),
                        ),
                    },
                ),
                Err(error) => NextView::Failed(ReplErrorView::Config(error)),
            }
        },
    }
}

/// What is said and done when the context of a request has been read: the errors
/// that reading gave are shown in any case.
pub open spec fn gathered_step(
    state: ReplView,
    purpose: PurposeView,
    context: Result<Seq<RContextView>, Seq<char>>,
    errors: Seq<Seq<char>>,
) -> StepView {
    StepView {
        lines: err_lines(errors),
        next: match context {
            Ok(context) => context_taken(state, purpose, context),
            Err(error) => NextView::Failed(ReplErrorView::Outside(error)),
        },
    }
}

/// What is done when the plan for a request is there.
pub open spec fn planned_step(
    state: ReplView,
    request: HumanMessageView,
    plan: Seq<char>,
) -> StepView {
    StepView::quiet(
        match state.config.spec_config_for_llm(LLMType::ClaudeSonnet) {
            Ok(model) => NextView::Await(
                JobView::Send {
                    completion: editing_request(model, request_block(request.context, plan)),
                },
            ),
            Err(error) => NextView::Failed(ReplErrorView::Config(error)),
        },
    )
}

/// The step of the interpreter that carries out a step of the editing loop. When
/// the loop is done, the working copy is recorded.
pub open spec fn agent_step_taken(printed: Seq<Seq<char>>, step: AgentStepView) -> StepView {
    StepView {
        lines: out_lines(printed),
        next: match step {
            AgentStepView::Send(request) => NextView::Await(JobView::Send { completion: request }),
            AgentStepView::Edit(round) => NextView::Await(JobView::Edit { round }),
            AgentStepView::Finished => NextView::Await(JobView::Record),
            AgentStepView::Failed(error) => NextView::Failed(ReplErrorView::Agent(error)),
        },
    }
}

/// The lines that close an editing request.
pub open spec fn closing_lines(after_edit: bool) -> Seq<LineView> {
    if after_edit {
        seq![LineView::Print("Request processed successfully."@)]
    } else {
        Seq::empty()
    }
}

/// What is said and done when the diff to describe was printed. A blank one needs
/// no description.
pub open spec fn commit_diff_step(
    state: ReplView,
    printed: Seq<char>,
    after_edit: bool,
) -> StepView {
    if trimmed(printed).len() == 0 {
        StepView {
            lines: seq![LineView::Print("No changes found in git diff."@)] + closing_lines(
                after_edit,
            ),
            next: NextView::Finished { exit: false },
        }
    } else {
        StepView::quiet(
            match state.config.spec_config_for_llm(LLMType::O3MiniHigh) {
                Ok(model) => NextView::Await(
                    JobView::WriteCommitMessage {
                        completion: commit_request(
                            model,
                            seq![RContextView::RecentChanges { diff: printed }],
                            "Generate commit message"@,
                        ),
                        after_edit,
                    },
                ),
                Err(error) => NextView::Failed(ReplErrorView::Config(error)),
            },
        )
    }
}

/// What is said and done when a command's stream gave a line, or ended: the line is
/// shown on the stream of the same kind, and when both streams have ended, only the
/// command's own end is waited for.
pub open spec fn command_heard_step(
    run: RunView,
    stream: Stream,
    line: Option<Seq<char>>,
) -> StepView {
    let after = run.after(stream, line);
    StepView {
        lines: match line {
            Some(line) => match stream {
                Stream::Stdout => seq![LineView::Print(line)],
                Stream::Stderr => seq![LineView::Error(line)],
            },
            None => Seq::empty(),
        },
        next: NextView::Await(
            if after.ended() {
                JobView::Wait { run: after }
            } else {
                JobView::Follow { run: after }
            },
        ),
    }
}

/// What is said when a knowledge file has been saved.
pub open spec fn knowledge_saved_step(title: Seq<char>) -> StepView {
    StepView::says("Created and loaded knowledge file: "@ + title)
}

/// What is said when the working copy's changes were taken back, or why they were
/// not.
pub open spec fn restored_step(failure: Option<Seq<char>>) -> StepView {
    StepView {
        lines: seq![
            match failure {
                Some(error) => LineView::Error("Error running restore: "@ + error),
                None => LineView::Print("Agent restored and exchange history cleared."@),
            },
        ],
        next: NextView::Finished { exit: false },
    }
}

/// What is said when a shell command has ended.
pub open spec fn command_exited_step(exit: CommandExit) -> StepView {
    StepView {
        lines: seq![
            LineView::Print(exit.spec_message()),
            LineView::Print("Command output added to context"@),
        ],
        next: NextView::Finished { exit: false },
    }
}

/// What is done when the working copy has been recorded.
pub open spec fn recorded_step() -> StepView {
    StepView::quiet(NextView::Await(JobView::ReadCommitDiff { after_edit: true }))
}

/// What is said and done when a commit message is there.
pub open spec fn commit_message_step(message: Seq<char>, after_edit: bool) -> StepView {
    StepView {
        lines: seq![LineView::Print("Generated commit message:\n"@ + message)],
        next: NextView::Await(JobView::DescribeCommit { message, after_edit }),
    }
}

/// What is said when the change has been described with a commit message.
pub open spec fn commit_described_step(after_edit: bool) -> StepView {
    StepView { lines: closing_lines(after_edit), next: NextView::Finished { exit: false } }
}

/// What is done when a knowledge file's text is there.
pub open spec fn knowledge_written_step(title: Seq<char>, content: Seq<char>) -> StepView {
    StepView::quiet(
        NextView::Await(
            JobView::SaveKnowledge {
                title,
                file_name: knowledge_file(title),
                content: trimmed(content),
            },
        ),
    )
}

/// What is said when the working copy's changes were not shown; if they were,
/// nothing is.
pub open spec fn diff_shown_step(failure: Option<Seq<char>>) -> StepView {
    StepView {
        lines: match failure {
            Some(error) => seq![LineView::Error("Error running diff: "@ + error)],
            None => Seq::empty(),
        },
        next: NextView::Finished { exit: false },
    }
}

/// What is done when a shell command has been started.
pub open spec fn command_started_step(command: Seq<Seq<char>>) -> StepView {
    StepView::quiet(NextView::Await(JobView::Follow { run: RunView::fresh(command) }))
}

/// What a job's outcome does to the state.
pub open spec fn resumed_state(state: ReplView, job: JobView, outcome: OutcomeView) -> ReplView {
    match (job, outcome) {
        (JobView::CheckFile { path }, OutcomeView::FileChecked { exists }) => if exists {
            state.with_file(path)
        } else {
            state
        },
        (JobView::CheckKnowledge { title, .. }, OutcomeView::KnowledgeChecked { exists }) => {
            if exists {
                state.with_knowledge(title)
            } else {
                state
            }
        },
        (JobView::Plan { request, .. }, OutcomeView::Planned { text }) => {
            state.with_plan(request.user_request, text)
        },
        (JobView::SaveKnowledge { title, .. }, OutcomeView::KnowledgeSaved) => {
            state.with_knowledge(title)
        },
        (JobView::Restore, OutcomeView::Restored) => state.without_history(),
        (JobView::Wait { run }, OutcomeView::CommandExited { exit }) => {
            state.with_command(joined(run.command), run.transcript(exit))
        },
        _ => state,
    }
}

/// What is said and done when a job failed. Diffs and restores that fail are only
/// told of; everything else fails the input.
pub open spec fn failed_step(job: JobView, error: Seq<char>) -> StepView {
    match job {
        JobView::ShowDiff => diff_shown_step(Some(error)),
        JobView::Restore => restored_step(Some(error)),
        _ => StepView::quiet(NextView::Failed(ReplErrorView::Outside(error))),
    }
}

/// What is said and done when a job has come to its outcome. An outcome that cannot
/// have come of the job fails the input.
pub open spec fn resumed_step(state: ReplView, job: JobView, outcome: OutcomeView) -> StepView {
    match (job, outcome) {
        (_, OutcomeView::Failed { error }) => failed_step(job, error),
        (JobView::CheckFile { path }, OutcomeView::FileChecked { exists }) => {
            file_checked_step(path, exists)
        },
        (JobView::CheckKnowledge { title, .. }, OutcomeView::KnowledgeChecked { exists }) => {
            knowledge_checked_step(state, title, exists)
        },
        (JobView::Describe { edit }, OutcomeView::Described) => {
            state.gather(PurposeView::Edit(edit))
        },
        (
            JobView::Gather { purpose, paths, titles, with_diff },
            OutcomeView::Gathered { files, knowledge, diff },
        ) => if answers_gather(paths, titles, with_diff, files, knowledge, diff) {
            gathered_step(
                state,
                purpose,
                read_contexts(files, knowledge, state.commands, diff),
                file_errors(files) + knowledge_errors(knowledge),
            )
        } else {
            StepView::quiet(NextView::Failed(ReplErrorView::UnexpectedOutcome))
        },
        (JobView::Plan { request, .. }, OutcomeView::Planned { text }) => {
            planned_step(state, request, text)
        },
        (JobView::Send { completion }, OutcomeView::Replied { text, calls }) => {
            let (printed, next) = reply_step(completion, text, calls);
            agent_step_taken(printed, next)
        },
        (JobView::Edit { round }, OutcomeView::Observed { text }) => if round.waiting() {
            let (printed, next) = observation_step(round, text);
            agent_step_taken(printed, next)
        } else {
            StepView::quiet(NextView::Failed(ReplErrorView::UnexpectedOutcome))
        },
        (JobView::Record, OutcomeView::Recorded) => recorded_step(),
        (JobView::ReadCommitDiff { after_edit }, OutcomeView::CommitDiffRead { text }) => {
            commit_diff_step(state, text, after_edit)
        },
        (
            JobView::WriteCommitMessage { after_edit, .. },
            OutcomeView::CommitMessageWritten { text },
        ) => commit_message_step(text, after_edit),
        (JobView::DescribeCommit { after_edit, .. }, OutcomeView::CommitDescribed) => {
            commit_described_step(after_edit)
        },
        (JobView::WriteKnowledge { title, .. }, OutcomeView::KnowledgeWritten { text }) => {
            knowledge_written_step(title, text)
        },
        (JobView::SaveKnowledge { title, .. }, OutcomeView::KnowledgeSaved) => {
            knowledge_saved_step(title)
        },
        (JobView::ShowDiff, OutcomeView::DiffShown) => diff_shown_step(None),
        (JobView::Restore, OutcomeView::Restored) => restored_step(None),
        (JobView::Start { command }, OutcomeView::CommandStarted) => command_started_step(command),
        (JobView::Follow { run }, OutcomeView::CommandHeard { stream, line }) => {
            if run.stream_ended(stream) {
                StepView::quiet(NextView::Failed(ReplErrorView::UnexpectedOutcome))
            } else {
                command_heard_step(run, stream, line)
            }
        },
        (JobView::Wait { .. }, OutcomeView::CommandExited { exit }) => command_exited_step(exit),
        (JobView::PrintHelp, OutcomeView::HelpPrinted) | (
            JobView::Exec { .. },
            OutcomeView::ProgramRun,
        ) | (JobView::Jj { .. }, OutcomeView::JjRun) => {
            StepView::quiet(NextView::Finished { exit: false })
        },
        _ => StepView::quiet(NextView::Failed(ReplErrorView::UnexpectedOutcome)),
    }
}

/// The state and the step that an input has come to after `outcomes`, one for each
/// job it asked for. Once nothing more is asked for, nothing more happens.
pub open spec fn after_outcomes(
    state: ReplView,
    line: Seq<char>,
    command: Option<Commands>,
    outcomes: Seq<OutcomeView>,
) -> (ReplView, StepView)
    decreases outcomes.len(),
{
    if outcomes.len() == 0 {
        (input_state(state, command), input_step(state, line, command))
    } else {
        let (now, step) = after_outcomes(state, line, command, outcomes.drop_last());
        match step.next {
            NextView::Await(job) => (
                resumed_state(now, job, outcomes.last()),
                resumed_step(now, job, outcomes.last()),
            ),
            _ => (now, step),
        }
    }
}

/// A text that starts with `start`.
fn phrase(start: &str, text: &str) -> (whole: String)
    ensures
        whole@ == start@ + text@,
{
    let mut whole = start.to_owned();
    whole.append(text);
    whole
}

/// The text of a line that was entered, without the whitespace around it, if there
/// is any.
pub fn entered_line(line: &str) -> (text: Option<String>)
    ensures
        match text {
            Some(text) => text@ == trimmed(line@) && text@.len() > 0,
            None => trimmed(line@).len() == 0,
        },
{
    let text = line.trim();
    if text.is_empty() {
        None
    } else {
        Some(text.to_owned())
    }
}

impl Repl {
    /// An interpreter with nothing pending and nothing loaded.
    pub fn new(session: RSession, config: LLMClientConfig) -> (repl: Self)
        ensures
            repl@ == (ReplView {
                id: session.id,
                repo_root: session.repo_root@,
                config,
                exchanges: session.exchanges.deep_view(),
                files: Seq::empty(),
                commands: Seq::empty(),
                knowledge: Seq::empty(),
                recent_changes: false,
            }),
            repl@.wf(),
    {
        let repl = Repl {
            session,
            config,
            pending_file_paths: Vec::new(),
            pending_command_contexts: Vec::new(),
            loaded_knowledge: Vec::new(),
            recent_changes_flag: false,
        };
        assert(repl@.files =~= Seq::empty());
        assert(repl@.commands =~= Seq::empty());
        assert(repl@.knowledge =~= Seq::empty());
        repl
    }

    /// Starts an editing request.
    fn start_edit(&self, kind: EditKind, text: String) -> (step: Step)
        ensures
            step@ == self@.edit(EditRequestView { kind, text: text@ }),
    {
        if self.pending_file_paths.len() == 0 {
            Step::quiet(Next::Failed(ReplError::NoPendingFiles))
        } else {
            Step::quiet(Next::Await(Job::Describe { edit: EditRequest { kind, text } }))
        }
    }

    /// Starts to gather the context of a request.
    fn start_gather(&self, purpose: Purpose) -> (step: Step)
        ensures
            step@ == self@.gather(purpose@),
    {
        Step::quiet(
            Next::Await(
                Job::Gather {
                    purpose,
                    paths: clone_words(&self.pending_file_paths),
                    titles: clone_words(&self.loaded_knowledge),
                    with_diff: self.recent_changes_flag,
                },
            ),
        )
    }

    /// Lists everything that is pending or loaded.
    fn show_context(&self) -> (step: Step)
        ensures
            step@ == input_step(self@, Seq::empty(), Some(Commands::Context)),
    {
        let mut texts = list_pending_files(&self.pending_file_paths);
        let ghost files = texts.deep_view();
        let mut more = list_loaded_knowledge(&self.loaded_knowledge);
        let ghost knowledge = more.deep_view();
        texts.append(&mut more);
        let mut rest = list_pending_commands(&self.pending_command_contexts);
        let ghost commands = rest.deep_view();
        texts.append(&mut rest);
        assert(texts.deep_view() =~= files + knowledge + commands);
        Step { lines: to_out_lines(texts), next: Next::Finished { exit: false } }
    }

    /// Removes the pending file at `index`, if there is one.
    fn remove_file(&mut self, index: usize) -> (step: Step)
        ensures
            final(self)@ == old(self)@.without_file(index as int),
            step@ == input_step(old(self)@, Seq::empty(), Some(Commands::Remove { index })),
    {
        let mut text = String::new();
        if index < self.pending_file_paths.len() {
            self.pending_file_paths.remove(index);
            assert(self.pending_file_paths.deep_view() =~= old(
                self,
            ).pending_file_paths.deep_view().remove(index as int));
            text.append("Removed file at index ");
            push_decimal(&mut text, index as u64);
            assert(text@ =~= "Removed file at index "@ + decimal(index as nat));
        } else {
            text.append("Index ");
            push_decimal(&mut text, index as u64);
            text.append(" is out of range");
            assert(text@ =~= "Index "@ + decimal(index as nat) + " is out of range"@);
        }
        assert(self@ =~= old(self)@.without_file(index as int));
        Step::says(text)
    }

    /// Unloads a knowledge file, if it is loaded.
    fn unload_knowledge(&mut self, title: String) -> (step: Step)
        ensures
            final(self)@ == old(self)@.without_knowledge(title@),
            step@ == input_step(
                old(self)@,
                Seq::empty(),
                Some(Commands::UnloadKnowledge { title }),
            ),
    {
        let ghost titles = self.loaded_knowledge.deep_view();
        proof {
            titles.index_of_first_ensures(title@);
        }
        match position(&self.loaded_knowledge, &title) {
            Some(at) => {
                self.loaded_knowledge.remove(at);
                assert(self.loaded_knowledge.deep_view() =~= titles.remove(at as int));
                assert(titles[at as int] == title@);
                assert(titles.index_of_first(title@) == Some(at as int));
                assert(self@ =~= old(self)@.without_knowledge(title@));
                Step::says(phrase("Unloaded knowledge file: ", title.as_str()))
            },
            None => {
                assert(self@ =~= old(self)@.without_knowledge(title@));
                Step::says(phrase("Knowledge file not loaded: ", title.as_str()))
            },
        }
    }

    /// Loads a knowledge file, unless it is loaded already, and says whether it was
    /// not.
    fn load_knowledge(&mut self, title: &String) -> (fresh: bool)
        ensures
            final(self)@ == old(self)@.with_knowledge(title@),
            fresh == !old(self)@.knowledge.contains(title@),
    {
        match position(&self.loaded_knowledge, title) {
            Some(at) => {
                assert(self@.knowledge[at as int] == title@);
                false
            },
            None => {
                self.loaded_knowledge.push(title.clone());
                assert(self@ =~= old(self)@.with_knowledge(title@)) by {
                    assert(self@.knowledge =~= old(self)@.knowledge.push(title@));
                }
                true
            },
        }
    }

    /// Takes up an input: `command` is what the line was parsed as, if it is a
    /// command.
    pub fn process_input(&mut self, line: &str, command: Option<Commands>) -> (step: Step)
        ensures
            final(self)@ == input_state(old(self)@, command),
            old(self)@.wf() ==> final(self)@.wf(),
            step@ == input_step(old(self)@, line@, command),
    {
        proof {
            if self@.wf() {
                the_state_stays_well_formed(self@, command, Seq::empty(), Seq::empty());
            }
        }
        let command = match command {
            Some(command) => command,
            None => {
                return self.start_edit(EditKind::Architect, line.to_owned());
            },
        };
        match command {
            Commands::Exit => Step::quiet(Next::Finished { exit: true }),
            Commands::Context => self.show_context(),
            Commands::Add { file_path } => {
                Step::quiet(Next::Await(Job::CheckFile { path: file_path }))
            },
            Commands::Remove { index } => self.remove_file(index),
            Commands::ClearContext => {
                self.pending_file_paths.clear();
                self.pending_command_contexts.clear();
                assert(self@ =~= old(self)@.without_context()) by {
                    assert(self@.files =~= Seq::empty());
                    assert(self@.commands =~= Seq::empty());
                }
                Step::says("Cleared all pending files and command outputs".to_owned())
            },
            Commands::Clear => {
                self.session.exchanges.clear();
                assert(self@ =~= old(self)@.without_history()) by {
                    assert(self@.exchanges =~= Seq::empty());
                }
                Step::says("Cleared exchange history.".to_owned())
            },
            Commands::CreateKnowledge { title, request } => {
                self.start_gather(Purpose::Knowledge { title, text: join_words(&request) })
            },
            Commands::LoadKnowledge { title } => {
                let file_name = knowledge_file_name(&title);
                Step::quiet(Next::Await(Job::CheckKnowledge { title, file_name }))
            },
            Commands::UnloadKnowledge { title } => self.unload_knowledge(title),
            Commands::ListKnowledge => Step {
                lines: to_out_lines(list_loaded_knowledge(&self.loaded_knowledge)),
                next: Next::Finished { exit: false },
            },
            Commands::Implementer { request } => {
                self.start_edit(EditKind::Implementer, join_words(&request))
            },
            Commands::IncludeRecentChanges => {
                self.recent_changes_flag = !self.recent_changes_flag;
                if self.recent_changes_flag {
                    Step::says("Recent changes will be included in next request".to_owned())
                } else {
                    Step::says("Recent changes will not be included in next request".to_owned())
                }
            },
            Commands::Diff => Step::quiet(Next::Await(Job::ShowDiff)),
            Commands::CommitMessage => Step::quiet(
                Next::Await(Job::ReadCommitDiff { after_edit: false }),
            ),
            Commands::Run { command } => {
                if command.len() == 0 {
                    Step::says("No command provided.".to_owned())
                } else {
                    Step::quiet(Next::Await(Job::Start { command }))
                }
            },
            Commands::Exec { command } => {
                if command.len() == 0 {
                    Step::says("No command provided.".to_owned())
                } else {
                    let mut args = command;
                    let program = args.remove(0);
                    assert(args.deep_view() =~= command.deep_view().drop_first());
                    Step::quiet(Next::Await(Job::Exec { program, args }))
                }
            },
            Commands::Jj { args } => Step::quiet(Next::Await(Job::Jj { args })),
            Commands::Restore => Step::quiet(Next::Await(Job::Restore)),
            Commands::Help => Step::quiet(Next::Await(Job::PrintHelp)),
        }
    }

    /// Takes up whether a file that is to be added is there.
    pub fn file_checked(&mut self, path: String, exists: bool) -> (step: Step)
        ensures
            final(self)@ == (if exists {
                old(self)@.with_file(path@)
            } else {
                old(self)@
            }),
            old(self)@.wf() ==> final(self)@.wf(),
            step@ == file_checked_step(path@, exists),
    {
        if exists {
            let text = phrase("Added file to pending context: ", path.as_str());
            self.pending_file_paths.push(path);
            assert(self@ =~= old(self)@.with_file(path@)) by {
                assert(self@.files =~= old(self)@.files.push(path@));
            }
            Step::says(text)
        } else {
            Step::says(phrase("File not found: ", path.as_str()))
        }
    }

    /// Takes up whether a knowledge file that is to be loaded is there.
    pub fn knowledge_checked(&mut self, title: String, exists: bool) -> (step: Step)
        ensures
            final(self)@ == (if exists {
                old(self)@.with_knowledge(title@)
            } else {
                old(self)@
            }),
            old(self)@.wf() ==> final(self)@.wf(),
            step@ == knowledge_checked_step(old(self)@, title@, exists),
    {
        if !exists {
            return Step::says(phrase("Knowledge file not found: ", title.as_str()));
        }
        if self.load_knowledge(&title) {
            Step::says(phrase("Loaded knowledge file: ", title.as_str()))
        } else {
            Step::says(phrase("Knowledge file already loaded: ", title.as_str()))
        }
    }

    /// Goes on with an editing request whose text the working copy's change has
    /// been described with.
    pub fn described(&self, request: EditRequest) -> (step: Step)
        ensures
            step@ == self@.gather(PurposeView::Edit(request@)),
    {
        self.start_gather(Purpose::Edit(request))
    }

    /// Goes on with a request to edit code and its context.
    fn take_edit(&self, kind: EditKind, message: HumanMessage) -> (next: Next)
        ensures
            next@ == context_taken(
                self@,
                PurposeView::Edit(EditRequestView { kind, text: message@.user_request }),
                message@.context,
            ),
    {
        match kind {
            EditKind::Architect => {
                match self.session.architect_editting(&message, &self.config) {
                    Ok(completion) => Next::Await(Job::Plan { request: message, completion }),
                    Err(error) => Next::Failed(ReplError::Config(error)),
                }
            },
            EditKind::Implementer => {
                match self.session.implementer(&message, &self.config, true) {
                    Ok(completion) => Next::Await(Job::Send { completion }),
                    Err(error) => Next::Failed(ReplError::Config(error)),
                }
            },
        }
    }

    /// Goes on with a request for a knowledge file and its context.
    fn take_knowledge(&self, title: String, message: HumanMessage) -> (next: Next)
        ensures
            next@ == context_taken(
                self@,
                PurposeView::Knowledge { title: title@, text: message@.user_request },
                message@.context,
            ),
    {
        match self.session.create_knowledge(&message, &self.config) {
            Ok(completion) => Next::Await(Job::WriteKnowledge { title, completion }),
            Err(error) => Next::Failed(ReplError::KnowledgeModel(error)),
        }
    }

    /// Takes up the context that was read for a request, and the diff if it was
    /// wanted.
    pub fn gathered(
        &self,
        purpose: Purpose,
        files: Vec<FileRead>,
        knowledge: Vec<KnowledgeRead>,
        diff: Option<ReadOutcome>,
    ) -> (step: Step)
        ensures
            step@ == gathered_step(
                self@,
                purpose@,
                read_contexts(
                    files.deep_view(),
                    knowledge.deep_view(),
                    self@.commands,
                    diff.deep_view(),
                ),
                file_errors(files.deep_view()) + knowledge_errors(knowledge.deep_view()),
            ),
    {
        let commands = &self.pending_command_contexts;
        match purpose {
            Purpose::Knowledge { title, text } => {
                let gathered = build_human_message(files, knowledge, commands, diff, text);
                let next = match gathered.message {
                    Ok(message) => self.take_knowledge(title, message),
                    Err(error) => Next::Failed(ReplError::Outside(error)),
                };
                Step { lines: to_err_lines(gathered.errors), next }
            },
            Purpose::Edit(EditRequest { kind, text }) => {
                let gathered = build_human_message(files, knowledge, commands, diff, text);
                let next = match gathered.message {
                    Ok(message) => self.take_edit(kind, message),
                    Err(error) => Next::Failed(ReplError::Outside(error)),
                };
                Step { lines: to_err_lines(gathered.errors), next }
            },
        }
    }

    /// Takes up the plan for a request: it becomes part of the history, whatever
    /// comes of it, and is handed to the editing model.
    pub fn planned(&mut self, request: HumanMessage, plan: String) -> (step: Step)
        ensures
            final(self)@ == old(self)@.with_plan(request@.user_request, plan@),
            old(self)@.wf() ==> final(self)@.wf(),
            step@ == planned_step(old(self)@, request@, plan@),
    {
        let next = match self.session.take_plan(request, plan, &self.config) {
            Ok(request) => Next::Await(Job::Send { completion: request }),
            Err(error) => Next::Failed(ReplError::Config(error)),
        };
        assert(self@ =~= old(self)@.with_plan(request@.user_request, plan@));
        Step::quiet(next)
    }

    /// Takes up what the diff that is to be described printed.
    pub fn commit_diff_read(&self, printed: String, after_edit: bool) -> (step: Step)
        ensures
            step@ == commit_diff_step(self@, printed@, after_edit),
    {
        let diff = match get_diff(printed) {
            Some(diff) => diff,
            None => {
                let mut lines: Vec<Line> = Vec::new();
                lines.push(Line::Print("No changes found in git diff.".to_owned()));
                if after_edit {
                    lines.push(Line::Print("Request processed successfully.".to_owned()));
                }
                assert(lines.deep_view() =~= seq![
                    LineView::Print("No changes found in git diff."@),
                ] + closing_lines(after_edit));
                return Step { lines, next: Next::Finished { exit: false } };
            },
        };
        let mut context: Vec<RContext> = Vec::new();
        context.push(RContext::RecentChanges { diff });
        assert(context.deep_view() =~= seq![RContextView::RecentChanges { diff: printed@ }]);
        let request = HumanMessage {
            user_request: "Generate commit message".to_owned(),
            context,
        };
        match self.session.generate_commit_message(&request, &self.config) {
            Ok(completion) => Step::quiet(
                Next::Await(Job::WriteCommitMessage { completion, after_edit }),
            ),
            Err(error) => Step::quiet(Next::Failed(ReplError::Config(error))),
        }
    }

    /// Loads a knowledge file that has just been saved.
    pub fn knowledge_saved(&mut self, title: String) -> (step: Step)
        ensures
            final(self)@ == old(self)@.with_knowledge(title@),
            old(self)@.wf() ==> final(self)@.wf(),
            step@ == knowledge_saved_step(title@),
    {
        self.load_knowledge(&title);
        Step::says(phrase("Created and loaded knowledge file: ", title.as_str()))
    }

    /// Takes up whether the working copy's changes were taken back: if they were,
    /// the history is cleared, and if not, it stays.
    pub fn restored(&mut self, failure: Option<String>) -> (step: Step)
        ensures
            final(self)@ == (if failure is None {
                old(self)@.without_history()
            } else {
                old(self)@
            }),
            old(self)@.wf() ==> final(self)@.wf(),
            step@ == restored_step(failure.deep_view()),
    {
        let mut lines: Vec<Line> = Vec::new();
        match failure {
            Some(error) => {
                lines.push(Line::Error(phrase("Error running restore: ", error.as_str())));
                assert(lines.deep_view() =~= seq![
                    LineView::Error("Error running restore: "@ + error@),
                ]);
            },
            None => {
                self.session.exchanges.clear();
                assert(self@ =~= old(self)@.without_history()) by {
                    assert(self@.exchanges =~= Seq::empty());
                }
                lines.push(Line::Print("Agent restored and exchange history cleared.".to_owned()));
                assert(lines.deep_view() =~= seq![
                    LineView::Print("Agent restored and exchange history cleared."@),
                ]);
            },
        }
        Step { lines, next: Next::Finished { exit: false } }
    }

    /// Takes up how a shell command ended, and keeps its whole transcript.
    pub fn command_exited(&mut self, run: CommandRun, exit: CommandExit) -> (step: Step)
        ensures
            final(self)@ == old(self)@.with_command(
                joined(run@.command),
                run@.transcript(exit),
            ),
            old(self)@.wf() ==> final(self)@.wf(),
            step@ == command_exited_step(exit),
    {
        let context = RContext::Command {
            command: join_words(&run.command),
            output: run.transcript(&exit),
        };
        self.pending_command_contexts.push(context);
        assert(self@ =~= old(self)@.with_command(joined(run@.command), run@.transcript(exit))) by {
            assert(self@.commands =~= old(self)@.commands.push(context@));
        }
        let mut lines: Vec<Line> = Vec::new();
        lines.push(Line::Print(exit.message()));
        lines.push(Line::Print("Command output added to context".to_owned()));
        assert(lines.deep_view() =~= seq![
            LineView::Print(exit.spec_message()),
            LineView::Print("Command output added to context"@),
        ]);
        Step { lines, next: Next::Finished { exit: false } }
    }

    /// Goes on when a job has come to its outcome.
    pub fn resume(&mut self, job: Job, outcome: Outcome) -> (step: Step)
        ensures
            final(self)@ == resumed_state(old(self)@, job@, outcome@),
            step@ == resumed_step(old(self)@, job@, outcome@),
            old(self)@.wf() ==> final(self)@.wf(),
    {
        match (job, outcome) {
            (Job::ShowDiff, Outcome::Failed { error }) => diff_shown(Some(error)),
            (Job::Restore, Outcome::Failed { error }) => self.restored(Some(error)),
            (_, Outcome::Failed { error }) => {
                Step::quiet(Next::Failed(ReplError::Outside(error)))
            },
            (Job::CheckFile { path }, Outcome::FileChecked { exists }) => {
                self.file_checked(path, exists)
            },
            (Job::CheckKnowledge { title, .. }, Outcome::KnowledgeChecked { exists }) => {
                self.knowledge_checked(title, exists)
            },
            (Job::Describe { edit }, Outcome::Described) => self.described(edit),
            (
                Job::Gather { purpose, paths, titles, with_diff },
                Outcome::Gathered { files, knowledge, diff },
            ) => {
                if is_answer_to_gather(&paths, &titles, with_diff, &files, &knowledge, &diff) {
                    self.gathered(purpose, files, knowledge, diff)
                } else {
                    Step::quiet(Next::Failed(ReplError::UnexpectedOutcome))
                }
            },
            (Job::Plan { request, .. }, Outcome::Planned { text }) => self.planned(request, text),
            (Job::Send { completion }, Outcome::Replied { text, calls }) => {
                replied(completion, text, calls)
            },
            (Job::Edit { round }, Outcome::Observed { text }) => {
                if round.results.len() < round.calls.len() {
                    observed(round, text)
                } else {
                    Step::quiet(Next::Failed(ReplError::UnexpectedOutcome))
                }
            },
            (Job::Record, Outcome::Recorded) => recorded(),
            (Job::ReadCommitDiff { after_edit }, Outcome::CommitDiffRead { text }) => {
                self.commit_diff_read(text, after_edit)
            },
            (
                Job::WriteCommitMessage { after_edit, .. },
                Outcome::CommitMessageWritten { text },
            ) => commit_message_written(text, after_edit),
            (Job::DescribeCommit { after_edit, .. }, Outcome::CommitDescribed) => {
                commit_described(after_edit)
            },
            (Job::WriteKnowledge { title, .. }, Outcome::KnowledgeWritten { text }) => {
                knowledge_written(title, text)
            },
            (Job::SaveKnowledge { title, .. }, Outcome::KnowledgeSaved) => {
                self.knowledge_saved(title)
            },
            (Job::ShowDiff, Outcome::DiffShown) => diff_shown(None),
            (Job::Restore, Outcome::Restored) => self.restored(None),
            (Job::Start { command }, Outcome::CommandStarted) => command_started(command),
            (Job::Follow { run }, Outcome::CommandHeard { stream, line }) => {
                if run.stream_done(stream) {
                    Step::quiet(Next::Failed(ReplError::UnexpectedOutcome))
                } else {
                    command_heard(run, stream, line)
                }
            },
            (Job::Wait { run }, Outcome::CommandExited { exit }) => {
                self.command_exited(run, exit)
            },
            (Job::PrintHelp, Outcome::HelpPrinted) => done(),
            (Job::Exec { .. }, Outcome::ProgramRun) => done(),
            (Job::Jj { .. }, Outcome::JjRun) => done(),
            _ => Step::quiet(Next::Failed(ReplError::UnexpectedOutcome)),
        }
    }
}

/// Carries out a step of the editing loop.
fn take_agent_step(printed: Vec<String>, step: AgentStep) -> (r: Step)
    ensures
        r@ == agent_step_taken(printed.deep_view(), step@),
{
    let next = match step {
        AgentStep::Send(request) => Next::Await(Job::Send { completion: request }),
        AgentStep::Edit(round) => Next::Await(Job::Edit { round }),
        AgentStep::Finished => Next::Await(Job::Record),
        AgentStep::Failed(error) => Next::Failed(ReplError::Agent(error)),
    };
    Step { lines: to_out_lines(printed), next }
}

/// Takes up the editing model's reply to `request`.
pub fn replied(request: CompletionRequest, body: String, calls: Vec<ToolCall>) -> (step: Step)
    ensures
        ({
            let (printed, next) = reply_step(request@, body@, calls.deep_view());
            step@ == agent_step_taken(printed, next)
        }),
{
    let (printed, next) = take_reply(request, body, calls);
    take_agent_step(printed, next)
}

/// Takes up what the code editor gave back for the current call of a round.
pub fn observed(round: ToolRound, text: String) -> (step: Step)
    requires
        round@.waiting(),
    ensures
        ({
            let (printed, next) = observation_step(round@, text@);
            step@ == agent_step_taken(printed, next)
        }),
{
    let (printed, next) = take_observation(round, text);
    take_agent_step(printed, next)
}

/// Goes on after the working copy has been recorded: its changes are described.
pub fn recorded() -> (step: Step)
    ensures
        step@ == recorded_step(),
{
    Step::quiet(Next::Await(Job::ReadCommitDiff { after_edit: true }))
}

/// Takes up a commit message: it is shown, and the change is described with it.
pub fn commit_message_written(message: String, after_edit: bool) -> (step: Step)
    ensures
        step@ == commit_message_step(message@, after_edit),
{
    let mut lines: Vec<Line> = Vec::new();
    lines.push(Line::Print(phrase("Generated commit message:\n", message.as_str())));
    assert(lines.deep_view() =~= seq![LineView::Print("Generated commit message:\n"@ + message@)]);
    Step { lines, next: Next::Await(Job::DescribeCommit { message, after_edit }) }
}

/// Goes on after the change has been described.
pub fn commit_described(after_edit: bool) -> (step: Step)
    ensures
        step@ == commit_described_step(after_edit),
{
    if after_edit {
        Step::says("Request processed successfully.".to_owned())
    } else {
        done()
    }
}

/// Takes up a knowledge file's text: it is saved without the whitespace around it.
pub fn knowledge_written(title: String, content: String) -> (step: Step)
    ensures
        step@ == knowledge_written_step(title@, content@),
{
    let file_name = knowledge_file_name(&title);
    let content = content.trim().to_owned();
    Step::quiet(Next::Await(Job::SaveKnowledge { title, file_name, content }))
}

/// Takes up whether the working copy's changes were shown.
pub fn diff_shown(failure: Option<String>) -> (step: Step)
    ensures
        step@ == diff_shown_step(failure.deep_view()),
{
    let mut lines: Vec<Line> = Vec::new();
    if let Some(error) = &failure {
        lines.push(Line::Error(phrase("Error running diff: ", error.as_str())));
    }
    let ghost said = match failure {
        Some(error) => seq![LineView::Error("Error running diff: "@ + error@)],
        None => Seq::empty(),
    };
    assert(lines.deep_view() =~= said);
    Step { lines, next: Next::Finished { exit: false } }
}

/// Starts to follow a shell command.
pub fn command_started(command: Vec<String>) -> (step: Step)
    ensures
        step@ == command_started_step(command.deep_view()),
{
    Step::quiet(Next::Await(Job::Follow { run: CommandRun::fresh(command) }))
}

/// Takes up a line that a command's stream gave, or the stream's end.
pub fn command_heard(run: CommandRun, stream: Stream, line: Option<String>) -> (step: Step)
    ensures
        step@ == command_heard_step(run@, stream, line.deep_view()),
{
    let mut after = run;
    after.hear(stream, &line);
    let mut lines: Vec<Line> = Vec::new();
    if let Some(line) = line {
        match stream {
            Stream::Stdout => {
                lines.push(Line::Print(line));
            },
            Stream::Stderr => {
                lines.push(Line::Error(line));
            },
        }
    }
    assert(lines.deep_view() =~= command_heard_step(run@, stream, line.deep_view()).lines);
    let next = if after.stdout_done && after.stderr_done {
        Next::Await(Job::Wait { run: after })
    } else {
        Next::Await(Job::Follow { run: after })
    };
    Step { lines, next }
}

/// Goes on after something was done of which nothing is to be said.
pub fn done() -> (step: Step)
    ensures
        step@ == StepView::quiet(NextView::Finished { exit: false }),
{
    Step::quiet(Next::Finished { exit: false })
}

} // verus!
