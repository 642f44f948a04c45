//! The version control commands that a session runs, and what is made of their
//! output.

use rand::Rng;
use vstd::prelude::*;

use crate::text::{clone_words, trimmed};

verus! {

/// The directory in a workspace that holds its metadata.
pub const METADATA_DIR: &'static str = ".jj";

/// The directory below [`METADATA_DIR`] that agents' workspaces stand in.
pub const AGENT_DIR: &'static str = "agent";

/// How many letters the name of an agent's workspace has.
pub const AGENT_ID_LENGTH: usize = 4;

/// A call of `jj`.
#[derive(Debug)]
pub enum JjCommand {
    /// Prints the root of the current workspace.
    WorkspaceRoot,
    /// Adds a workspace, at a revision if one is given.
    WorkspaceAdd { path: String, revision: Option<String> },
    /// Forgets a workspace.
    WorkspaceForget { agent_id: String },
    /// Records the working copy and prints its status.
    Status,
    /// Prints the working copy's changes for people.
    Diff,
    /// Prints the working copy's changes as a git diff.
    GitDiff,
    /// Sets the description of the working copy's change.
    Describe { message: String },
    /// Takes the working copy's changes back.
    Restore,
    /// Whatever the user asks for.
    Other { args: Vec<String> },
}

impl JjCommand {
    /// The arguments of the call.
    pub open spec fn spec_args(self) -> Seq<Seq<char>> {
        match self {
            JjCommand::WorkspaceRoot => seq!["workspace"@, "root"@],
            JjCommand::WorkspaceAdd { path, revision } => seq!["workspace"@, "add"@, path@] + (
            match revision {
                Some(revision) => seq!["--revision"@, revision@],
                None => seq![],
            }),
            JjCommand::WorkspaceForget { agent_id } => seq!["workspace"@, "forget"@, agent_id@],
            JjCommand::Status => seq!["st"@],
            JjCommand::Diff => seq!["diff"@],
            JjCommand::GitDiff => seq!["diff"@, "--git"@],
            JjCommand::Describe { message } => seq!["describe"@, "-m"@, message@],
            JjCommand::Restore => seq!["restore"@],
            JjCommand::Other { args } => args.deep_view(),
        }
    }

    /// The arguments of the call.
    pub fn args(&self) -> (args: Vec<String>)
        ensures
            args.deep_view() == self.spec_args(),
    {
        let mut args: Vec<String> = Vec::new();
        match self {
            JjCommand::WorkspaceRoot => {
                args.push("workspace".to_owned());
                args.push("root".to_owned());
            },
            JjCommand::WorkspaceAdd { path, revision } => {
                args.push("workspace".to_owned());
                args.push("add".to_owned());
                args.push(path.clone());
                if let Some(revision) = revision {
                    args.push("--revision".to_owned());
                    args.push(revision.clone());
                }
            },
            JjCommand::WorkspaceForget { agent_id } => {
                args.push("workspace".to_owned());
                args.push("forget".to_owned());
                args.push(agent_id.clone());
            },
            JjCommand::Status => {
                args.push("st".to_owned());
            },
            JjCommand::Diff => {
                args.push("diff".to_owned());
            },
            JjCommand::GitDiff => {
                args.push("diff".to_owned());
                args.push("--git".to_owned());
            },
            JjCommand::Describe { message } => {
                args.push("describe".to_owned());
                args.push("-m".to_owned());
                args.push(message.clone());
            },
            JjCommand::Restore => {
                args.push("restore".to_owned());
            },
            JjCommand::Other { args } => {
                return clone_words(args);
            },
        }
        assert(args.deep_view() =~= self.spec_args());
        args
    }
}

/// The root of a workspace out of what [`JjCommand::WorkspaceRoot`] printed.
pub fn workspace_root(printed: &str) -> (root: String)
    ensures
        root@ == trimmed(printed@),
{
    printed.trim().to_owned()
}

/// The diff that [`JjCommand::GitDiff`] printed, as it stands, unless it is blank.
pub fn get_diff(printed: String) -> (diff: Option<String>)
    ensures
        diff == (if trimmed(printed@).len() == 0 {
            None
        } else {
            Some(printed)
        }),
{
    if printed.trim().is_empty() {
        None
    } else {
        Some(printed)
    }
}

/// `rand::Rng::gen_range` on the thread's generator gives a number in a range that
/// is not empty, both ends included. Which one is left to chance.
#[verifier::external_body]
fn random_byte(low: u8, high: u8) -> (byte: u8)
    requires
        low <= high,
    ensures
        low <= byte <= high,
{
    rand::thread_rng().gen_range(low..=high)
}

/// Whether `id` can name an agent's workspace: four lower case letters.
pub open spec fn is_agent_id(id: Seq<char>) -> bool {
    &&& id.len() == AGENT_ID_LENGTH
    &&& forall|i: int| 0 <= i < id.len() ==> 'a' <= #[trigger] id[i] <= 'z'
}

/// The text that is made of the given ASCII letters.
pub fn agent_id(letters: &Vec<u8>) -> (id: String)
    ensures
        id@ == letters@.map_values(|letter: u8| letter as char),
{
    let mut id = String::new();
    for i in 0..letters.len()
        invariant
            id@ == letters@.take(i as int).map_values(|letter: u8| letter as char),
    {
        id.push(letters[i] as char);
        assert(id@ =~= letters@.take(i + 1).map_values(|letter: u8| letter as char));
    }
    assert(letters@.take(letters.len() as int) =~= letters@);
    id
}

/// A name for an agent's workspace, drawn at random.
pub fn random_agent_id() -> (id: String)
    ensures
        is_agent_id(id@),
{
    let mut letters: Vec<u8> = Vec::new();
    for i in 0..AGENT_ID_LENGTH
        invariant
            letters.len() == i,
            forall|j: int| 0 <= j < i ==> 97 <= #[trigger] letters[j] <= 122,
    {
        letters.push(random_byte(97, 122));
    }
    agent_id(&letters)
}

/// Settles on a drawn name unless a workspace of that name is there already: then
/// another one is to be drawn.
pub fn settle_agent_id(candidate: String, taken: bool) -> (id: Option<String>)
    ensures
        id == (if taken {
            None
        } else {
            Some(candidate)
        }),
{
    if taken {
        None
    } else {
        Some(candidate)
    }
}

/// What is handed to `jj` reaches it as one argument, as it stands and in its place,
/// whatever it holds: a path, a revision, a workspace's name, a message or the
/// arguments that the user gave.
pub proof fn arguments_reach_jj_as_they_stand(
    path: String,
    revision: String,
    agent_id: String,
    message: String,
    given: Vec<String>,
)
    ensures
        (JjCommand::WorkspaceAdd { path, revision: None }).spec_args() == seq![
            "workspace"@,
            "add"@,
            path@,
        ],
        (JjCommand::WorkspaceAdd { path, revision: Some(revision) }).spec_args() == seq![
            "workspace"@,
            "add"@,
            path@,
            "--revision"@,
            revision@,
        ],
        (JjCommand::WorkspaceForget { agent_id }).spec_args() == seq![
            "workspace"@,
            "forget"@,
            agent_id@,
        ],
        (JjCommand::Describe { message }).spec_args() == seq!["describe"@, "-m"@, message@],
        (JjCommand::Other { args: given }).spec_args() == given.deep_view(),
{
    assert((JjCommand::WorkspaceAdd { path, revision: None }).spec_args() =~= seq![
        "workspace"@,
        "add"@,
        path@,
    ]);
    assert((JjCommand::WorkspaceAdd { path, revision: Some(revision) }).spec_args() =~= seq![
        "workspace"@,
        "add"@,
        path@,
        "--revision"@,
        revision@,
    ]);
}

/// The commands that take nothing are always called alike: the changes are shown with
/// `diff` and read with `diff --git`, recorded with `st` and taken back with
/// `restore`, and the root is asked for with `workspace root`.
pub proof fn commands_without_arguments_are_fixed()
    ensures
        JjCommand::Diff.spec_args() == seq!["diff"@],
        JjCommand::GitDiff.spec_args() == seq!["diff"@, "--git"@],
        JjCommand::Status.spec_args() == seq!["st"@],
        JjCommand::Restore.spec_args() == seq!["restore"@],
        JjCommand::WorkspaceRoot.spec_args() == seq!["workspace"@, "root"@],
{
}

/// A name for a workspace is made of four letters between `a` and `z`, and every such
/// text is one.
pub proof fn names_are_four_letters(id: Seq<char>)
    ensures
        is_agent_id(id) <==> id.len() == 4 && 'a' <= id[0] <= 'z' && 'a' <= id[1] <= 'z' && 'a'
            <= id[2] <= 'z' && 'a' <= id[3] <= 'z',
{
}

} // verus!
