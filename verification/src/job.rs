//! What the interpreter asks to be done outside, and what it says meanwhile.

use vstd::prelude::*;

use crate::agent::{AgentError, AgentErrorView, RoundView, ToolRound};
use crate::context::{HumanMessage, HumanMessageView};
use crate::gather::{
    FileRead, FileReadView, KnowledgeRead, KnowledgeReadView, ReadOutcome, ReadView,
};
use crate::message::{CompletionRequest, RequestView, ToolCall, ToolCallView};
use crate::models::ConfigError;
use crate::run::{CommandExit, CommandRun, RunView, Stream};

verus! {

/// The commands of the interpreter.
#[derive(Debug)]
pub enum Commands {
    /// Exit the interpreter.
    Exit,
    /// Show the current context.
    Context,
    /// Add a file to the context.
    Add { file_path: String },
    /// Remove a file from the context by its index.
    Remove { index: usize },
    /// Clear all pending files and command outputs.
    ClearContext,
    /// Clear the exchange history.
    Clear,
    /// Create a new knowledge file.
    CreateKnowledge { title: String, request: Vec<String> },
    /// Load a knowledge file by its title.
    LoadKnowledge { title: String },
    /// Unload a knowledge file by its title.
    UnloadKnowledge { title: String },
    /// List the loaded knowledge files.
    ListKnowledge,
    /// Put a request to the editing model without a plan.
    Implementer { request: Vec<String> },
    /// Include recent changes in requests, or stop to.
    IncludeRecentChanges,
    /// Show the working copy's changes.
    Diff,
    /// Describe the working copy's changes with a generated message.
    CommitMessage,
    /// Run a shell command and add its output to the context.
    Run { command: Vec<String> },
    /// Run a shell command without adding its output to the context.
    Exec { command: Vec<String> },
    /// Run a version control command.
    Jj { args: Vec<String> },
    /// Take the working copy's changes back and clear the exchange history.
    Restore,
    /// Show the commands.
    Help,
}

/// A line for the user.
#[derive(Debug)]
pub enum Line {
    /// For the standard output.
    Print(String),
    /// For the standard error.
    Error(String),
}

/// How code is to be edited: after a plan, or at once.
#[derive(Clone, Copy, Debug, PartialEq, Eq, Structural)]
pub enum EditKind {
    Architect,
    Implementer,
}

/// A request to edit code.
#[derive(Debug)]
pub struct EditRequest {
    pub kind: EditKind,
    pub text: String,
}

/// What context is gathered for.
#[derive(Debug)]
pub enum Purpose {
    /// A request to edit code.
    Edit(EditRequest),
    /// A new knowledge file.
    Knowledge { title: String, text: String },
}

/// Something to be done outside. What came of it is an [`Outcome`], with which
/// [`crate::repl::Repl::resume`] goes on.
#[derive(Debug)]
pub enum Job {
    /// Look whether a file is there: [`Outcome::FileChecked`].
    CheckFile { path: String },
    /// Look whether a knowledge file is there: [`Outcome::KnowledgeChecked`].
    CheckKnowledge { title: String, file_name: String },
    /// Describe the working copy's change with the request's text:
    /// [`Outcome::Described`].
    Describe { edit: EditRequest },
    /// Read the files and the knowledge, and the diff if it is wanted:
    /// [`Outcome::Gathered`].
    Gather { purpose: Purpose, paths: Vec<String>, titles: Vec<String>, with_diff: bool },
    /// Ask for a plan: [`Outcome::Planned`].
    Plan { request: HumanMessage, completion: CompletionRequest },
    /// Send a request to the editing model: [`Outcome::Replied`].
    Send { completion: CompletionRequest },
    /// Run the code editor on the current call: [`Outcome::Observed`].
    Edit { round: ToolRound },
    /// Record the working copy: [`Outcome::Recorded`].
    Record,
    /// Print the diff to describe: [`Outcome::CommitDiffRead`].
    ReadCommitDiff { after_edit: bool },
    /// Ask for a commit message: [`Outcome::CommitMessageWritten`].
    WriteCommitMessage { completion: CompletionRequest, after_edit: bool },
    /// Describe the working copy's change: [`Outcome::CommitDescribed`].
    DescribeCommit { message: String, after_edit: bool },
    /// Ask for a knowledge file's text: [`Outcome::KnowledgeWritten`].
    WriteKnowledge { title: String, completion: CompletionRequest },
    /// Save a knowledge file: [`Outcome::KnowledgeSaved`].
    SaveKnowledge { title: String, file_name: String, content: String },
    /// Show the working copy's changes: [`Outcome::DiffShown`].
    ShowDiff,
    /// Take the working copy's changes back: [`Outcome::Restored`].
    Restore,
    /// Show the commands: [`Outcome::HelpPrinted`].
    PrintHelp,
    /// Start a shell command: [`Outcome::CommandStarted`].
    Start { command: Vec<String> },
    /// Wait for a line from a stream that has not ended: [`Outcome::CommandHeard`].
    Follow { run: CommandRun },
    /// Wait for a shell command to end: [`Outcome::CommandExited`].
    Wait { run: CommandRun },
    /// Run a program to its end: [`Outcome::ProgramRun`].
    Exec { program: String, args: Vec<String> },
    /// Run a version control command to its end: [`Outcome::JjRun`].
    Jj { args: Vec<String> },
}

/// What came of a [`Job`].
#[derive(Debug)]
pub enum Outcome {
    /// Whether the file is there.
    FileChecked { exists: bool },
    /// Whether the knowledge file is there.
    KnowledgeChecked { exists: bool },
    /// The change was described with the request.
    Described,
    /// What came of reading the files, the knowledge, and the diff if it was wanted.
    Gathered {
        files: Vec<FileRead>,
        knowledge: Vec<KnowledgeRead>,
        diff: Option<ReadOutcome>,
    },
    /// The plan.
    Planned { text: String },
    /// The editing model's reply.
    Replied { text: String, calls: Vec<ToolCall> },
    /// What the code editor gave back.
    Observed { text: String },
    /// The working copy was recorded.
    Recorded,
    /// What the diff printed.
    CommitDiffRead { text: String },
    /// The commit message.
    CommitMessageWritten { text: String },
    /// The change was described with the commit message.
    CommitDescribed,
    /// The knowledge file's text.
    KnowledgeWritten { text: String },
    /// The knowledge file was saved.
    KnowledgeSaved,
    /// The changes were shown.
    DiffShown,
    /// The changes were taken back.
    Restored,
    /// The commands were shown.
    HelpPrinted,
    /// The shell command was started.
    CommandStarted,
    /// A line that a stream gave, or the stream's end.
    CommandHeard { stream: Stream, line: Option<String> },
    /// How the shell command ended.
    CommandExited { exit: CommandExit },
    /// The program was run.
    ProgramRun,
    /// The version control command was run.
    JjRun,
    /// The job failed, with this message.
    Failed { error: String },
}

/// Why an input fails.
#[derive(Debug)]
pub enum ReplError {
    /// Code is to be edited, and no file is pending.
    NoPendingFiles,
    /// A model cannot be reached.
    Config(ConfigError),
    /// The model that writes knowledge files cannot be reached.
    KnowledgeModel(ConfigError),
    /// The editing model asked for something that cannot be done.
    Agent(AgentError),
    /// Something outside failed, with this message.
    Outside(String),
    /// What is said to have come of a job cannot have come of it.
    UnexpectedOutcome,
}

/// What follows a step.
#[derive(Debug)]
pub enum Next {
    /// The input is dealt with; whether the interpreter is to exit.
    Finished { exit: bool },
    /// The input fails.
    Failed(ReplError),
    /// A job is to be done.
    Await(Job),
}

/// A step of the interpreter: the lines to show at once, and what follows.
#[derive(Debug)]
pub struct Step {
    pub lines: Vec<Line>,
    pub next: Next,
}

/// The contents of a [`Line`].
#[verifier::ext_equal]
pub enum LineView {
    Print(Seq<char>),
    Error(Seq<char>),
}

/// The contents of an [`EditRequest`].
#[verifier::ext_equal]
pub struct EditRequestView {
    pub kind: EditKind,
    pub text: Seq<char>,
}

/// The contents of a [`Purpose`].
#[verifier::ext_equal]
pub enum PurposeView {
    Edit(EditRequestView),
    Knowledge { title: Seq<char>, text: Seq<char> },
}

/// The contents of a [`Job`].
#[verifier::ext_equal]
pub enum JobView {
    CheckFile { path: Seq<char> },
    CheckKnowledge { title: Seq<char>, file_name: Seq<char> },
    Describe { edit: EditRequestView },
    Gather {
        purpose: PurposeView,
        paths: Seq<Seq<char>>,
        titles: Seq<Seq<char>>,
        with_diff: bool,
    },
    Plan { request: HumanMessageView, completion: RequestView },
    Send { completion: RequestView },
    Edit { round: RoundView },
    Record,
    ReadCommitDiff { after_edit: bool },
    WriteCommitMessage { completion: RequestView, after_edit: bool },
    DescribeCommit { message: Seq<char>, after_edit: bool },
    WriteKnowledge { title: Seq<char>, completion: RequestView },
    SaveKnowledge { title: Seq<char>, file_name: Seq<char>, content: Seq<char> },
    ShowDiff,
    Restore,
    PrintHelp,
    Start { command: Seq<Seq<char>> },
    Follow { run: RunView },
    Wait { run: RunView },
    Exec { program: Seq<char>, args: Seq<Seq<char>> },
    Jj { args: Seq<Seq<char>> },
}

/// The contents of an [`Outcome`].
#[verifier::ext_equal]
pub enum OutcomeView {
    FileChecked { exists: bool },
    KnowledgeChecked { exists: bool },
    Described,
    Gathered {
        files: Seq<FileReadView>,
        knowledge: Seq<KnowledgeReadView>,
        diff: Option<ReadView>,
    },
    Planned { text: Seq<char> },
    Replied { text: Seq<char>, calls: Seq<ToolCallView> },
    Observed { text: Seq<char> },
    Recorded,
    CommitDiffRead { text: Seq<char> },
    CommitMessageWritten { text: Seq<char> },
    CommitDescribed,
    KnowledgeWritten { text: Seq<char> },
    KnowledgeSaved,
    DiffShown,
    Restored,
    HelpPrinted,
    CommandStarted,
    CommandHeard { stream: Stream, line: Option<Seq<char>> },
    CommandExited { exit: CommandExit },
    ProgramRun,
    JjRun,
    Failed { error: Seq<char> },
}

/// The contents of a [`ReplError`].
#[verifier::ext_equal]
pub enum ReplErrorView {
    NoPendingFiles,
    Config(ConfigError),
    KnowledgeModel(ConfigError),
    Agent(AgentErrorView),
    Outside(Seq<char>),
    UnexpectedOutcome,
}

/// The contents of a [`Next`].
#[verifier::ext_equal]
pub enum NextView {
    Finished { exit: bool },
    Failed(ReplErrorView),
    Await(JobView),
}

/// The contents of a [`Step`].
#[verifier::ext_equal]
pub struct StepView {
    pub lines: Seq<LineView>,
    pub next: NextView,
}

impl View for Line {
    type V = LineView;

    open spec fn view(&self) -> LineView {
        match self {
            Line::Print(text) => LineView::Print(text@),
            Line::Error(text) => LineView::Error(text@),
        }
    }
}

impl DeepView for Line {
    type V = LineView;

    open spec fn deep_view(&self) -> LineView {
        self@
    }
}

impl View for EditRequest {
    type V = EditRequestView;

    open spec fn view(&self) -> EditRequestView {
        EditRequestView { kind: self.kind, text: self.text@ }
    }
}

impl View for Purpose {
    type V = PurposeView;

    open spec fn view(&self) -> PurposeView {
        match self {
            Purpose::Edit(request) => PurposeView::Edit(request@),
            Purpose::Knowledge { title, text } => PurposeView::Knowledge {
                title: title@,
                text: text@,
            },
        }
    }
}

impl View for Job {
    type V = JobView;

    open spec fn view(&self) -> JobView {
        match self {
            Job::CheckFile { path } => JobView::CheckFile { path: path@ },
            Job::CheckKnowledge { title, file_name } => JobView::CheckKnowledge {
                title: title@,
                file_name: file_name@,
            },
            Job::Describe { edit } => JobView::Describe { edit: edit@ },
            Job::Gather { purpose, paths, titles, with_diff } => JobView::Gather {
                purpose: purpose@,
                paths: paths.deep_view(),
                titles: titles.deep_view(),
                with_diff: *with_diff,
            },
            Job::Plan { request, completion } => JobView::Plan {
                request: request@,
                completion: completion@,
            },
            Job::Send { completion } => JobView::Send { completion: completion@ },
            Job::Edit { round } => JobView::Edit { round: round@ },
            Job::Record => JobView::Record,
            Job::ReadCommitDiff { after_edit } => JobView::ReadCommitDiff {
                after_edit: *after_edit,
            },
            Job::WriteCommitMessage { completion, after_edit } => JobView::WriteCommitMessage {
                completion: completion@,
                after_edit: *after_edit,
            },
            Job::DescribeCommit { message, after_edit } => JobView::DescribeCommit {
                message: message@,
                after_edit: *after_edit,
            },
            Job::WriteKnowledge { title, completion } => JobView::WriteKnowledge {
                title: title@,
                completion: completion@,
            },
            Job::SaveKnowledge { title, file_name, content } => JobView::SaveKnowledge {
                title: title@,
                file_name: file_name@,
                content: content@,
            },
            Job::ShowDiff => JobView::ShowDiff,
            Job::Restore => JobView::Restore,
            Job::PrintHelp => JobView::PrintHelp,
            Job::Start { command } => JobView::Start { command: command.deep_view() },
            Job::Follow { run } => JobView::Follow { run: run@ },
            Job::Wait { run } => JobView::Wait { run: run@ },
            Job::Exec { program, args } => JobView::Exec {
                program: program@,
                args: args.deep_view(),
            },
            Job::Jj { args } => JobView::Jj { args: args.deep_view() },
        }
    }
}

impl View for Outcome {
    type V = OutcomeView;

    open spec fn view(&self) -> OutcomeView {
        match self {
            Outcome::FileChecked { exists } => OutcomeView::FileChecked { exists: *exists },
            Outcome::KnowledgeChecked { exists } => OutcomeView::KnowledgeChecked {
                exists: *exists,
            },
            Outcome::Described => OutcomeView::Described,
            Outcome::Gathered { files, knowledge, diff } => OutcomeView::Gathered {
                files: files.deep_view(),
                knowledge: knowledge.deep_view(),
                diff: diff.deep_view(),
            },
            Outcome::Planned { text } => OutcomeView::Planned { text: text@ },
            Outcome::Replied { text, calls } => OutcomeView::Replied {
                text: text@,
                calls: calls.deep_view(),
            },
            Outcome::Observed { text } => OutcomeView::Observed { text: text@ },
            Outcome::Recorded => OutcomeView::Recorded,
            Outcome::CommitDiffRead { text } => OutcomeView::CommitDiffRead { text: text@ },
            Outcome::CommitMessageWritten { text } => OutcomeView::CommitMessageWritten {
                text: text@,
            },
            Outcome::CommitDescribed => OutcomeView::CommitDescribed,
            Outcome::KnowledgeWritten { text } => OutcomeView::KnowledgeWritten { text: text@ },
            Outcome::KnowledgeSaved => OutcomeView::KnowledgeSaved,
            Outcome::DiffShown => OutcomeView::DiffShown,
            Outcome::Restored => OutcomeView::Restored,
            Outcome::HelpPrinted => OutcomeView::HelpPrinted,
            Outcome::CommandStarted => OutcomeView::CommandStarted,
            Outcome::CommandHeard { stream, line } => OutcomeView::CommandHeard {
                stream: *stream,
                line: line.deep_view(),
            },
            Outcome::CommandExited { exit } => OutcomeView::CommandExited { exit: *exit },
            Outcome::ProgramRun => OutcomeView::ProgramRun,
            Outcome::JjRun => OutcomeView::JjRun,
            Outcome::Failed { error } => OutcomeView::Failed { error: error@ },
        }
    }
}

impl View for ReplError {
    type V = ReplErrorView;

    open spec fn view(&self) -> ReplErrorView {
        match self {
            ReplError::NoPendingFiles => ReplErrorView::NoPendingFiles,
            ReplError::Config(error) => ReplErrorView::Config(*error),
            ReplError::KnowledgeModel(error) => ReplErrorView::KnowledgeModel(*error),
            ReplError::Agent(error) => ReplErrorView::Agent(error@),
            ReplError::Outside(message) => ReplErrorView::Outside(message@),
            ReplError::UnexpectedOutcome => ReplErrorView::UnexpectedOutcome,
        }
    }
}

impl View for Next {
    type V = NextView;

    open spec fn view(&self) -> NextView {
        match self {
            Next::Finished { exit } => NextView::Finished { exit: *exit },
            Next::Failed(error) => NextView::Failed(error@),
            Next::Await(job) => NextView::Await(job@),
        }
    }
}

impl View for Step {
    type V = StepView;

    open spec fn view(&self) -> StepView {
        StepView { lines: self.lines.deep_view(), next: self.next@ }
    }
}

impl ReplErrorView {
    /// The error in words.
    pub open spec fn message(self) -> Seq<char> {
        match self {
            ReplErrorView::NoPendingFiles => {
                "No files in pending context. Please add at least one file using the 'Add' command."@
            },
            ReplErrorView::Config(error) => error.spec_message(),
            ReplErrorView::KnowledgeModel(_) => "O3MiniHigh model not configured"@,
            ReplErrorView::Agent(AgentErrorView::UnknownTool(name)) => "unknown tool: "@ + name,
            ReplErrorView::Agent(AgentErrorView::InvalidToolInput) => {
                "the input of a tool call is not JSON"@
            },
            ReplErrorView::Outside(message) => message,
            ReplErrorView::UnexpectedOutcome => "the outcome does not belong to the job"@,
        }
    }
}

impl ReplError {
    /// The error in words.
    pub fn message(&self) -> (text: String)
        ensures
            text@ == self@.message(),
    {
        match self {
            ReplError::NoPendingFiles => {
                "No files in pending context. Please add at least one file using the 'Add' command.".to_owned()
            },
            ReplError::Config(error) => error.message(),
            ReplError::KnowledgeModel(_) => "O3MiniHigh model not configured".to_owned(),
            ReplError::Agent(AgentError::UnknownTool(name)) => {
                let mut text = "unknown tool: ".to_owned();
                text.append(name.as_str());
                text
            },
            ReplError::Agent(AgentError::InvalidToolInput) => {
                "the input of a tool call is not JSON".to_owned()
            },
            ReplError::Outside(message) => message.clone(),
            ReplError::UnexpectedOutcome => "the outcome does not belong to the job".to_owned(),
        }
    }
}

/// The texts as lines for the standard output.
pub open spec fn out_lines(texts: Seq<Seq<char>>) -> Seq<LineView> {
    texts.map_values(|text: Seq<char>| LineView::Print(text))
}

/// The texts as lines for the standard error.
pub open spec fn err_lines(texts: Seq<Seq<char>>) -> Seq<LineView> {
    texts.map_values(|text: Seq<char>| LineView::Error(text))
}

/// Turns texts into lines for the standard output.
pub(crate) fn to_out_lines(texts: Vec<String>) -> (lines: Vec<Line>)
    ensures
        lines.deep_view() == out_lines(texts.deep_view()),
{
    let mut lines: Vec<Line> = Vec::new();
    for text in iter: texts
        invariant
            iter.seq() == texts@,
            lines.len() == iter.index(),
            forall|j: int| 0 <= j < iter.index() ==> lines[j]@ == LineView::Print(texts[j]@),
    {
        lines.push(Line::Print(text));
    }
    assert(lines.deep_view() =~= out_lines(texts.deep_view()));
    lines
}

/// Turns texts into lines for the standard error.
pub(crate) fn to_err_lines(texts: Vec<String>) -> (lines: Vec<Line>)
    ensures
        lines.deep_view() == err_lines(texts.deep_view()),
{
    let mut lines: Vec<Line> = Vec::new();
    for text in iter: texts
        invariant
            iter.seq() == texts@,
            lines.len() == iter.index(),
            forall|j: int| 0 <= j < iter.index() ==> lines[j]@ == LineView::Error(texts[j]@),
    {
        lines.push(Line::Error(text));
    }
    assert(lines.deep_view() =~= err_lines(texts.deep_view()));
    lines
}

impl StepView {
    /// A step that says nothing.
    pub open spec fn quiet(next: NextView) -> StepView {
        StepView { lines: Seq::empty(), next }
    }

    /// A step that says one line and deals with the input.
    pub open spec fn says(text: Seq<char>) -> StepView {
        StepView {
            lines: seq![LineView::Print(text)],
            next: NextView::Finished { exit: false },
        }
    }
}

impl Step {
    /// A step that says nothing.
    pub(crate) fn quiet(next: Next) -> (step: Step)
        ensures
            step@ == StepView::quiet(next@),
    {
        let step = Step { lines: Vec::new(), next };
        assert(step@ =~~= StepView::quiet(next@));
        step
    }

    /// A step that says one line and deals with the input.
    pub(crate) fn says(text: String) -> (step: Step)
        ensures
            step@ == StepView::says(text@),
    {
        let mut lines: Vec<Line> = Vec::new();
        lines.push(Line::Print(text));
        let step = Step { lines, next: Next::Finished { exit: false } };
        assert(step@ =~~= StepView::says(text@));
        step
    }
}

/// The view of a job shows every part of it.
pub proof fn job_views_show_every_part(job: Job)
    ensures
        job matches Job::CheckFile { path } ==> job@ == (JobView::CheckFile {
            path: path@,
        }),
        job matches Job::CheckKnowledge { title, file_name } ==> job@ == (JobView::CheckKnowledge {
            title: title@,
            file_name: file_name@,
        }),
        job matches Job::Describe { edit } ==> job@ == (JobView::Describe {
            edit: edit@,
        }),
        job matches Job::Gather { purpose, paths, titles, with_diff } ==> job@ == (JobView::Gather {
            purpose: purpose@,
            paths: paths.deep_view(),
            titles: titles.deep_view(),
            with_diff,
        }),
        job matches Job::Plan { request, completion } ==> job@ == (JobView::Plan {
            request: request@,
            completion: completion@,
        }),
        job matches Job::Send { completion } ==> job@ == (JobView::Send {
            completion: completion@,
        }),
        job matches Job::Edit { round } ==> job@ == (JobView::Edit {
            round: round@,
        }),
        job is Record ==> job@ == JobView::Record,
        job matches Job::ReadCommitDiff { after_edit } ==> job@ == (JobView::ReadCommitDiff {
            after_edit,
        }),
        job matches Job::WriteCommitMessage { completion, after_edit } ==> job@ == (JobView::WriteCommitMessage {
            completion: completion@,
            after_edit,
        }),
        job matches Job::DescribeCommit { message, after_edit } ==> job@ == (JobView::DescribeCommit {
            message: message@,
            after_edit,
        }),
        job matches Job::WriteKnowledge { title, completion } ==> job@ == (JobView::WriteKnowledge {
            title: title@,
            completion: completion@,
        }),
        job matches Job::SaveKnowledge { title, file_name, content } ==> job@ == (JobView::SaveKnowledge {
            title: title@,
            file_name: file_name@,
            content: content@,
        }),
        job is ShowDiff ==> job@ == JobView::ShowDiff,
        job is Restore ==> job@ == JobView::Restore,
        job is PrintHelp ==> job@ == JobView::PrintHelp,
        job matches Job::Start { command } ==> job@ == (JobView::Start {
            command: command.deep_view(),
        }),
        job matches Job::Follow { run } ==> job@ == (JobView::Follow {
            run: run@,
        }),
        job matches Job::Wait { run } ==> job@ == (JobView::Wait {
            run: run@,
        }),
        job matches Job::Exec { program, args } ==> job@ == (JobView::Exec {
            program: program@,
            args: args.deep_view(),
        }),
        job matches Job::Jj { args } ==> job@ == (JobView::Jj {
            args: args.deep_view(),
        }),
{
}

/// The view of an outcome shows every part of it.
pub proof fn outcome_views_show_every_part(outcome: Outcome)
    ensures
        outcome matches Outcome::FileChecked { exists } ==> outcome@ == (OutcomeView::FileChecked {
            exists,
        }),
        outcome matches Outcome::KnowledgeChecked { exists } ==> outcome@ == (OutcomeView::KnowledgeChecked {
            exists,
        }),
        outcome is Described ==> outcome@ == OutcomeView::Described,
        outcome matches Outcome::Gathered { files, knowledge, diff } ==> outcome@ == (OutcomeView::Gathered {
            files: files.deep_view(),
            knowledge: knowledge.deep_view(),
            diff: diff.deep_view(),
        }),
        outcome matches Outcome::Planned { text } ==> outcome@ == (OutcomeView::Planned {
            text: text@,
        }),
        outcome matches Outcome::Replied { text, calls } ==> outcome@ == (OutcomeView::Replied {
            text: text@,
            calls: calls.deep_view(),
        }),
        outcome matches Outcome::Observed { text } ==> outcome@ == (OutcomeView::Observed {
            text: text@,
        }),
        outcome is Recorded ==> outcome@ == OutcomeView::Recorded,
        outcome matches Outcome::CommitDiffRead { text } ==> outcome@ == (OutcomeView::CommitDiffRead {
            text: text@,
        }),
        outcome matches Outcome::CommitMessageWritten { text } ==> outcome@ == (OutcomeView::CommitMessageWritten {
            text: text@,
        }),
        outcome is CommitDescribed ==> outcome@ == OutcomeView::CommitDescribed,
        outcome matches Outcome::KnowledgeWritten { text } ==> outcome@ == (OutcomeView::KnowledgeWritten {
            text: text@,
        }),
        outcome is KnowledgeSaved ==> outcome@ == OutcomeView::KnowledgeSaved,
        outcome is DiffShown ==> outcome@ == OutcomeView::DiffShown,
        outcome is Restored ==> outcome@ == OutcomeView::Restored,
        outcome is HelpPrinted ==> outcome@ == OutcomeView::HelpPrinted,
        outcome is CommandStarted ==> outcome@ == OutcomeView::CommandStarted,
        outcome matches Outcome::CommandHeard { stream, line } ==> outcome@ == (OutcomeView::CommandHeard {
            stream,
            line: line.deep_view(),
        }),
        outcome matches Outcome::CommandExited { exit } ==> outcome@ == (OutcomeView::CommandExited {
            exit,
        }),
        outcome is ProgramRun ==> outcome@ == OutcomeView::ProgramRun,
        outcome is JjRun ==> outcome@ == OutcomeView::JjRun,
        outcome matches Outcome::Failed { error } ==> outcome@ == (OutcomeView::Failed {
            error: error@,
        }),
{
}

/// The views of what is said and of what follows show every part of them.
pub proof fn step_views_show_every_part(step: Step, next: Next, edit: EditRequest, i: int)
    ensures
        step@.next == step.next@,
        step@.lines.len() == step.lines@.len(),
        0 <= i < step.lines@.len() ==> {
            &&& step.lines@[i] matches Line::Print(text) ==> step@.lines[i] == LineView::Print(
                text@,
            )
            &&& step.lines@[i] matches Line::Error(text) ==> step@.lines[i] == LineView::Error(
                text@,
            )
        },
        next matches Next::Finished { exit } ==> next@ == (NextView::Finished { exit }),
        next matches Next::Failed(error) ==> next@ == NextView::Failed(error@),
        next matches Next::Await(job) ==> next@ == NextView::Await(job@),
        edit@.kind == edit.kind && edit@.text == edit.text@,
{
}

/// The views of errors and of what context is gathered for show every part of them.
pub proof fn error_views_show_every_part(error: ReplError, purpose: Purpose)
    ensures
        error matches ReplError::Config(cause) ==> error@ == ReplErrorView::Config(cause),
        error matches ReplError::KnowledgeModel(cause) ==> error@ == ReplErrorView::KnowledgeModel(
            cause,
        ),
        error matches ReplError::Agent(cause) ==> error@ == ReplErrorView::Agent(cause@),
        error matches ReplError::Outside(message) ==> error@ == ReplErrorView::Outside(message@),
        error is NoPendingFiles ==> error@ == ReplErrorView::NoPendingFiles,
        error is UnexpectedOutcome ==> error@ == ReplErrorView::UnexpectedOutcome,
        purpose matches Purpose::Edit(edit) ==> purpose@ == PurposeView::Edit(edit@),
        purpose matches Purpose::Knowledge { title, text } ==> purpose@ == (
        PurposeView::Knowledge { title: title@, text: text@ }),
{
}

} // verus!
