//! What each command of the interpreter does to its state, says and asks for.

use vstd::prelude::*;

use crate::agent::AgentErrorView;
use crate::context::RContextView;
use crate::job::{
    err_lines, out_lines, Commands, EditKind, EditRequestView, JobView, LineView, NextView,
    OutcomeView, PurposeView, ReplErrorView, StepView,
};
use crate::listing::{loaded_knowledge_lines, pending_command_lines, pending_file_lines};
use crate::models::ConfigError;
use crate::repl::{input_state, input_step, resumed_state, resumed_step, Repl, ReplView};
use crate::text::{decimal, joined};

verus! {

/// Whether a step says exactly these lines on the standard output and then is done,
/// without an exit.
pub open spec fn only_says(step: StepView, texts: Seq<Seq<char>>) -> bool {
    &&& step.lines.len() == texts.len()
    &&& forall|i: int|
        0 <= i < texts.len() ==> (#[trigger] step.lines[i]) == LineView::Print(texts[i])
    &&& step.next == (NextView::Finished { exit: false })
}

/// Whether a step says nothing and asks for this job.
pub open spec fn only_asks(step: StepView, job: JobView) -> bool {
    &&& step.lines.len() == 0
    &&& step.next == NextView::Await(job)
}

/// Lines keep their texts, their number and their order, and each goes to its own
/// stream.
pub proof fn lines_keep_their_texts(texts: Seq<Seq<char>>, i: int)
    ensures
        out_lines(texts).len() == texts.len(),
        err_lines(texts).len() == texts.len(),
        0 <= i < texts.len() ==> out_lines(texts)[i] == LineView::Print(texts[i]),
        0 <= i < texts.len() ==> err_lines(texts)[i] == LineView::Error(texts[i]),
{
}

/// Every error has its own words, with what it names in them.
pub proof fn errors_have_their_words(error: ConfigError, text: Seq<char>)
    ensures
        ReplErrorView::NoPendingFiles.message()
            == "No files in pending context. Please add at least one file using the 'Add' command."@,
        ReplErrorView::Config(error).message() == error.spec_message(),
        ReplErrorView::KnowledgeModel(error).message() == "O3MiniHigh model not configured"@,
        ReplErrorView::Agent(AgentErrorView::UnknownTool(text)).message() == "unknown tool: "@
            + text,
        ReplErrorView::Outside(text).message() == text,
{
}

/// `exit` exits at once and says nothing.
pub proof fn exit_exits(state: ReplView, line: Seq<char>)
    ensures
        input_step(state, line, Some(Commands::Exit)).lines.len() == 0,
        input_step(state, line, Some(Commands::Exit)).next == (NextView::Finished { exit: true }),
        input_state(state, Some(Commands::Exit)) == state,
{
}

/// `context` lists the files, then the knowledge, then the commands, and changes
/// nothing; `list-knowledge` lists the knowledge alone.
pub proof fn what_is_pending_is_listed(state: ReplView, line: Seq<char>)
    ensures
        only_says(
            input_step(state, line, Some(Commands::Context)),
            pending_file_lines(state.files) + loaded_knowledge_lines(state.knowledge)
                + pending_command_lines(state.commands),
        ),
        only_says(
            input_step(state, line, Some(Commands::ListKnowledge)),
            loaded_knowledge_lines(state.knowledge),
        ),
        input_state(state, Some(Commands::Context)) == state,
        input_state(state, Some(Commands::ListKnowledge)) == state,
{
}

/// `add` looks for the file. If it is there, it is pending behind the files that were
/// pending before, even if it was pending already; if not, nothing changes. Either way
/// the user is told.
pub proof fn a_file_that_is_there_is_added(
    state: ReplView,
    line: Seq<char>,
    file_path: String,
    path: Seq<char>,
)
    ensures
        only_asks(
            input_step(state, line, Some(Commands::Add { file_path })),
            JobView::CheckFile { path: file_path@ },
        ),
        input_state(state, Some(Commands::Add { file_path })) == state,
        ({
            let job = JobView::CheckFile { path };
            let found = OutcomeView::FileChecked { exists: true };
            let missing = OutcomeView::FileChecked { exists: false };
            &&& resumed_state(state, job, found) == (ReplView {
                files: state.files.push(path),
                ..state
            })
            &&& resumed_state(state, job, missing) == state
            &&& only_says(
                resumed_step(state, job, found),
                seq!["Added file to pending context: "@ + path],
            )
            &&& only_says(resumed_step(state, job, missing), seq!["File not found: "@ + path])
        }),
{
}

/// `remove` takes away the file at the index that it is given and no other, and says
/// so; an index behind the last file changes nothing and is told of.
pub proof fn the_file_at_the_index_is_removed(state: ReplView, line: Seq<char>, index: usize)
    ensures
        ({
            let remove = Some(Commands::Remove { index });
            let after = input_state(state, remove);
            &&& index < state.files.len() ==> {
                &&& after == (ReplView { files: after.files, ..state })
                &&& after.files.len() == state.files.len() - 1
                &&& forall|i: int| 0 <= i < index ==> #[trigger] after.files[i] == state.files[i]
                &&& forall|i: int|
                    index <= i < after.files.len() ==> #[trigger] after.files[i] == state.files[i
                        + 1]
                &&& only_says(
                    input_step(state, line, remove),
                    seq!["Removed file at index "@ + decimal(index as nat)],
                )
            }
            &&& index >= state.files.len() ==> {
                &&& after == state
                &&& only_says(
                    input_step(state, line, remove),
                    seq!["Index "@ + decimal(index as nat) + " is out of range"@],
                )
            }
        }),
{
}

/// `clear-context` leaves neither files nor command outputs, and `clear` no history;
/// everything else stays.
pub proof fn clearing_clears(state: ReplView, line: Seq<char>)
    ensures
        input_state(state, Some(Commands::ClearContext)) == (ReplView {
            files: Seq::empty(),
            commands: Seq::empty(),
            ..state
        }),
        only_says(
            input_step(state, line, Some(Commands::ClearContext)),
            seq!["Cleared all pending files and command outputs"@],
        ),
        input_state(state, Some(Commands::Clear)) == (ReplView {
            exchanges: Seq::empty(),
            ..state
        }),
        only_says(
            input_step(state, line, Some(Commands::Clear)),
            seq!["Cleared exchange history."@],
        ),
{
}

/// `include-recent-changes` turns the wish for recent changes round, keeps everything
/// else, and says how it now stands.
pub proof fn the_wish_for_changes_is_turned_round(state: ReplView, line: Seq<char>)
    ensures
        input_state(state, Some(Commands::IncludeRecentChanges)) == (ReplView {
            recent_changes: !state.recent_changes,
            ..state
        }),
        only_says(
            input_step(state, line, Some(Commands::IncludeRecentChanges)),
            seq![
                if state.recent_changes {
                    "Recent changes will not be included in next request"@
                } else {
                    "Recent changes will be included in next request"@
                },
            ],
        ),
{
}

/// `load-knowledge` looks for the file that is named after the title. Knowledge that is
/// there and not loaded yet is loaded behind the rest; knowledge that is loaded already
/// or not there changes nothing. Each of the three is told.
pub proof fn knowledge_that_is_there_is_loaded(
    state: ReplView,
    line: Seq<char>,
    name: String,
    title: Seq<char>,
    file_name: Seq<char>,
)
    ensures
        only_asks(
            input_step(state, line, Some(Commands::LoadKnowledge { title: name })),
            JobView::CheckKnowledge { title: name@, file_name: name@ + ".md"@ },
        ),
        input_state(state, Some(Commands::LoadKnowledge { title: name })) == state,
        ({
            let job = JobView::CheckKnowledge { title, file_name };
            let found = OutcomeView::KnowledgeChecked { exists: true };
            let missing = OutcomeView::KnowledgeChecked { exists: false };
            let loaded = state.knowledge.contains(title);
            &&& resumed_state(state, job, missing) == state
            &&& only_says(
                resumed_step(state, job, missing),
                seq!["Knowledge file not found: "@ + title],
            )
            &&& loaded ==> resumed_state(state, job, found) == state && only_says(
                resumed_step(state, job, found),
                seq!["Knowledge file already loaded: "@ + title],
            )
            &&& !loaded ==> resumed_state(state, job, found) == (ReplView {
                knowledge: state.knowledge.push(title),
                ..state
            }) && only_says(
                resumed_step(state, job, found),
                seq!["Loaded knowledge file: "@ + title],
            )
        }),
{
}

/// `unload-knowledge` takes away the knowledge with that title at the first place where
/// it is loaded, keeps everything else, and says so; if it is not loaded, nothing
/// changes and this is told.
pub proof fn knowledge_that_is_loaded_is_unloaded(state: ReplView, line: Seq<char>, title: String)
    ensures
        ({
            let unload = Some(Commands::UnloadKnowledge { title });
            let after = input_state(state, unload);
            &&& after == (ReplView { knowledge: after.knowledge, ..state })
            &&& !state.knowledge.contains(title@) ==> after == state && only_says(
                input_step(state, line, unload),
                seq!["Knowledge file not loaded: "@ + title@],
            )
            &&& state.knowledge.contains(title@) ==> only_says(
                input_step(state, line, unload),
                seq!["Unloaded knowledge file: "@ + title@],
            ) && exists|at: int|
                {
                    &&& 0 <= at < state.knowledge.len()
                    &&& #[trigger] state.knowledge[at] == title@
                    &&& forall|i: int| 0 <= i < at ==> #[trigger] state.knowledge[i] != title@
                    &&& after.knowledge == state.knowledge.remove(at)
                }
        }),
{
    state.knowledge.index_of_first_ensures(title@);
    if state.knowledge.contains(title@) {
        let at = state.knowledge.index_of_first(title@)->0;
        assert(state.knowledge[at] == title@);
    }
}

/// A line that is no command asks for an edit with a plan, and `implementer` for one
/// without, each under the text that it was given; neither goes on unless a file is
/// pending.
pub proof fn edits_are_asked_for(state: ReplView, line: Seq<char>, request: Vec<String>)
    ensures
        ({
            let direct = Some(Commands::Implementer { request });
            &&& state.files.len() > 0 ==> only_asks(
                input_step(state, line, None),
                JobView::Describe {
                    edit: EditRequestView { kind: EditKind::Architect, text: line },
                },
            ) && only_asks(
                input_step(state, line, direct),
                JobView::Describe {
                    edit: EditRequestView {
                        kind: EditKind::Implementer,
                        text: joined(request.deep_view()),
                    },
                },
            )
            &&& state.files.len() == 0 ==> {
                &&& input_step(state, line, None).lines.len() == 0
                &&& input_step(state, line, None).next == NextView::Failed(
                    ReplErrorView::NoPendingFiles,
                )
                &&& input_step(state, line, direct).lines.len() == 0
                &&& input_step(state, line, direct).next == NextView::Failed(
                    ReplErrorView::NoPendingFiles,
                )
            }
        }),
{
}

/// `create-knowledge` gathers the context for the title and the text that it was given,
/// whether files are pending or not, and `commit-message` reads the changes.
pub proof fn texts_are_asked_for(
    state: ReplView,
    line: Seq<char>,
    title: String,
    request: Vec<String>,
)
    ensures
        only_asks(
            input_step(state, line, Some(Commands::CreateKnowledge { title, request })),
            JobView::Gather {
                purpose: PurposeView::Knowledge {
                    title: title@,
                    text: joined(request.deep_view()),
                },
                paths: state.files,
                titles: state.knowledge,
                with_diff: state.recent_changes,
            },
        ),
        input_state(state, Some(Commands::CreateKnowledge { title, request })) == state,
        only_asks(
            input_step(state, line, Some(Commands::CommitMessage)),
            JobView::ReadCommitDiff { after_edit: false },
        ),
        input_state(state, Some(Commands::CommitMessage)) == state,
{
}

/// `run` and `exec` run the words that they were given, `exec` with the first of them
/// as the program and the others as its arguments, and `jj` hands its arguments on;
/// without words there is nothing to run, and this is told. None of them changes the
/// state at once.
pub proof fn programs_are_asked_for(state: ReplView, line: Seq<char>, words: Vec<String>, i: int)
    ensures
        ({
            let run = Some(Commands::Run { command: words });
            let exec = Some(Commands::Exec { command: words });
            let jj = Some(Commands::Jj { args: words });
            &&& input_state(state, run) == state && input_state(state, exec) == state
            &&& input_state(state, jj) == state
            &&& words@.len() == 0 ==> only_says(
                input_step(state, line, run),
                seq!["No command provided."@],
            ) && only_says(input_step(state, line, exec), seq!["No command provided."@])
            &&& only_asks(input_step(state, line, jj), JobView::Jj { args: words.deep_view() })
            &&& words@.len() > 0 ==> {
                let next = input_step(state, line, exec).next;
                &&& only_asks(
                    input_step(state, line, run),
                    JobView::Start { command: words.deep_view() },
                )
                &&& input_step(state, line, exec).lines.len() == 0
                &&& next is Await && next->Await_0 is Exec
                &&& next->Await_0->program == words@[0]@
                &&& next->Await_0->Exec_args.len() == words@.len() - 1
                &&& 0 <= i < words@.len() - 1 ==> next->Await_0->Exec_args[i] == words@[i + 1]@
            }
        }),
{
}

/// `diff`, `restore` and `help` ask for what they are named after and change nothing at
/// once.
pub proof fn the_rest_is_asked_for(state: ReplView, line: Seq<char>)
    ensures
        only_asks(input_step(state, line, Some(Commands::Diff)), JobView::ShowDiff),
        only_asks(input_step(state, line, Some(Commands::Restore)), JobView::Restore),
        only_asks(input_step(state, line, Some(Commands::Help)), JobView::PrintHelp),
        input_state(state, Some(Commands::Diff)) == state,
        input_state(state, Some(Commands::Restore)) == state,
        input_state(state, Some(Commands::Help)) == state,
{
}

/// Changes that were taken back leave no history, and nothing else is lost; changes
/// that could not be taken back leave everything, and the reason is told on the
/// standard error, as it is when changes could not be shown.
pub proof fn restoring_clears_the_history(state: ReplView, error: Seq<char>)
    ensures
        resumed_state(state, JobView::Restore, OutcomeView::Restored) == (ReplView {
            exchanges: Seq::empty(),
            ..state
        }),
        only_says(
            resumed_step(state, JobView::Restore, OutcomeView::Restored),
            seq!["Agent restored and exchange history cleared."@],
        ),
        ({
            let failed = resumed_step(state, JobView::Restore, OutcomeView::Failed { error });
            &&& resumed_state(state, JobView::Restore, OutcomeView::Failed { error }) == state
            &&& failed.lines == seq![LineView::Error("Error running restore: "@ + error)]
            &&& failed.next == (NextView::Finished { exit: false })
        }),
        only_says(resumed_step(state, JobView::ShowDiff, OutcomeView::DiffShown), seq![]),
        ({
            let failed = resumed_step(state, JobView::ShowDiff, OutcomeView::Failed { error });
            &&& failed.lines == seq![LineView::Error("Error running diff: "@ + error)]
            &&& failed.next == (NextView::Finished { exit: false })
        }),
{
}

/// Help that was printed and programs that were run end their input, of which nothing
/// more is said and which changes nothing.
pub proof fn silent_jobs_end_their_input(
    state: ReplView,
    program: Seq<char>,
    args: Seq<Seq<char>>,
)
    ensures
        only_says(resumed_step(state, JobView::PrintHelp, OutcomeView::HelpPrinted), seq![]),
        only_says(
            resumed_step(state, JobView::Exec { program, args }, OutcomeView::ProgramRun),
            seq![],
        ),
        only_says(resumed_step(state, JobView::Jj { args }, OutcomeView::JjRun), seq![]),
        resumed_state(state, JobView::PrintHelp, OutcomeView::HelpPrinted) == state,
        resumed_state(state, JobView::Exec { program, args }, OutcomeView::ProgramRun) == state,
        resumed_state(state, JobView::Jj { args }, OutcomeView::JjRun) == state,
{
}

/// A state is well formed exactly if no title is loaded at two places and every piece
/// that is kept of commands is a command's.
pub proof fn well_formed_states(state: ReplView)
    ensures
        state.wf() <==> {
            &&& forall|i: int, j: int|
                0 <= i < j < state.knowledge.len() ==> #[trigger] state.knowledge[i]
                    != #[trigger] state.knowledge[j]
            &&& forall|i: int|
                0 <= i < state.commands.len() ==> (#[trigger] state.commands[i]) matches RContextView::Command {
                    ..
                }
        },
{
}

/// The view of the interpreter shows every part of it.
pub proof fn the_state_shows_every_part(repl: Repl)
    ensures
        repl@.id == repl.session.id,
        repl@.repo_root == repl.session.repo_root@,
        repl@.exchanges == repl.session.exchanges.deep_view(),
        repl@.config == repl.config,
        repl@.files == repl.pending_file_paths.deep_view(),
        repl@.commands == repl.pending_command_contexts.deep_view(),
        repl@.knowledge == repl.loaded_knowledge.deep_view(),
        repl@.recent_changes == repl.recent_changes_flag,
{
}

/// An outcome is taken up only for a job that it can have come of; for any other it
/// says nothing, changes nothing and fails the input.
pub proof fn only_fitting_outcomes_are_taken_up(
    state: ReplView,
    job: JobView,
    outcome: OutcomeView,
)
    ensures
        ({
            let fits = match outcome {
                OutcomeView::FileChecked { .. } => job is CheckFile,
                OutcomeView::KnowledgeChecked { .. } => job is CheckKnowledge,
                OutcomeView::Described => job is Describe,
                OutcomeView::Gathered { .. } => job is Gather,
                OutcomeView::Planned { .. } => job is Plan,
                OutcomeView::Replied { .. } => job is Send,
                OutcomeView::Observed { .. } => job is Edit && job->round.waiting(),
                OutcomeView::Recorded => job is Record,
                OutcomeView::CommitDiffRead { .. } => job is ReadCommitDiff,
                OutcomeView::CommitMessageWritten { .. } => job is WriteCommitMessage,
                OutcomeView::CommitDescribed => job is DescribeCommit,
                OutcomeView::KnowledgeWritten { .. } => job is WriteKnowledge,
                OutcomeView::KnowledgeSaved => job is SaveKnowledge,
                OutcomeView::DiffShown => job is ShowDiff,
                OutcomeView::Restored => job is Restore,
                OutcomeView::HelpPrinted => job is PrintHelp,
                OutcomeView::CommandStarted => job is Start,
                OutcomeView::CommandHeard { .. } => job is Follow,
                OutcomeView::CommandExited { .. } => job is Wait,
                OutcomeView::ProgramRun => job is Exec,
                OutcomeView::JjRun => job is Jj,
                OutcomeView::Failed { .. } => true,
            };
            !fits ==> {
                &&& resumed_state(state, job, outcome) == state
                &&& resumed_step(state, job, outcome).lines.len() == 0
                &&& resumed_step(state, job, outcome).next == NextView::Failed(
                    ReplErrorView::UnexpectedOutcome,
                )
            }
        }),
{
}

} // verus!
