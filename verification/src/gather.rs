//! Putting a request together with the context that was read for it.

use vstd::prelude::*;

use crate::context::{HumanMessage, RContext, RContextView};
use crate::jj::get_diff;
use crate::text::trimmed;

verus! {

/// What came of reading a file.
#[derive(Debug)]
pub enum ReadOutcome {
    /// Its text.
    Text(String),
    /// Why it could not be read.
    Failed(String),
}

/// A pending file and what came of reading it.
#[derive(Debug)]
pub struct FileRead {
    pub path: String,
    pub outcome: ReadOutcome,
}

/// A loaded knowledge file and what came of reading it, if it was still there.
#[derive(Debug)]
pub struct KnowledgeRead {
    pub title: String,
    pub outcome: Option<ReadOutcome>,
}

/// A request with its context, or why it cannot be had, and the errors that reading
/// the files gave.
#[derive(Debug)]
pub struct Gathered {
    pub message: Result<HumanMessage, String>,
    pub errors: Vec<String>,
}

/// The contents of a [`ReadOutcome`].
#[verifier::ext_equal]
pub enum ReadView {
    Text(Seq<char>),
    Failed(Seq<char>),
}

/// The contents of a [`FileRead`].
#[verifier::ext_equal]
pub struct FileReadView {
    pub path: Seq<char>,
    pub outcome: ReadView,
}

/// The contents of a [`KnowledgeRead`].
#[verifier::ext_equal]
pub struct KnowledgeReadView {
    pub title: Seq<char>,
    pub outcome: Option<ReadView>,
}

impl DeepView for ReadOutcome {
    type V = ReadView;

    open spec fn deep_view(&self) -> ReadView {
        match self {
            ReadOutcome::Text(text) => ReadView::Text(text@),
            ReadOutcome::Failed(error) => ReadView::Failed(error@),
        }
    }
}

impl DeepView for FileRead {
    type V = FileReadView;

    open spec fn deep_view(&self) -> FileReadView {
        FileReadView { path: self.path@, outcome: self.outcome.deep_view() }
    }
}

impl DeepView for KnowledgeRead {
    type V = KnowledgeReadView;

    open spec fn deep_view(&self) -> KnowledgeReadView {
        KnowledgeReadView { title: self.title@, outcome: self.outcome.deep_view() }
    }
}

/// Whether these are the readings of the files at `paths`, of the knowledge with
/// `titles`, and of a diff exactly if one was wanted.
pub open spec fn answers_gather(
    paths: Seq<Seq<char>>,
    titles: Seq<Seq<char>>,
    with_diff: bool,
    files: Seq<FileReadView>,
    knowledge: Seq<KnowledgeReadView>,
    diff: Option<ReadView>,
) -> bool {
    &&& files.map_values(|file: FileReadView| file.path) == paths
    &&& knowledge.map_values(|file: KnowledgeReadView| file.title) == titles
    &&& diff is Some <==> with_diff
}

/// The files that could be read, in order.
pub open spec fn file_contexts(files: Seq<FileReadView>) -> Seq<RContextView>
    decreases files.len(),
{
    if files.len() == 0 {
        Seq::empty()
    } else {
        let before = file_contexts(files.drop_last());
        match files.last().outcome {
            ReadView::Text(text) => before.push(
                RContextView::File { path: files.last().path, text },
            ),
            ReadView::Failed(_) => before,
        }
    }
}

/// A line for each file that could not be read, in order.
pub open spec fn file_errors(files: Seq<FileReadView>) -> Seq<Seq<char>>
    decreases files.len(),
{
    if files.len() == 0 {
        Seq::empty()
    } else {
        let before = file_errors(files.drop_last());
        match files.last().outcome {
            ReadView::Text(_) => before,
            ReadView::Failed(error) => before.push(
                "Error reading file "@ + files.last().path + ": "@ + error,
            ),
        }
    }
}

/// The knowledge files that were there and could be read, in order.
pub open spec fn knowledge_contexts(knowledge: Seq<KnowledgeReadView>) -> Seq<RContextView>
    decreases knowledge.len(),
{
    if knowledge.len() == 0 {
        Seq::empty()
    } else {
        let before = knowledge_contexts(knowledge.drop_last());
        match knowledge.last().outcome {
            Some(ReadView::Text(text)) => before.push(
                RContextView::Knowledge { title: knowledge.last().title, text },
            ),
            _ => before,
        }
    }
}

/// A line for each knowledge file that was there and could not be read, in order.
pub open spec fn knowledge_errors(knowledge: Seq<KnowledgeReadView>) -> Seq<Seq<char>>
    decreases knowledge.len(),
{
    if knowledge.len() == 0 {
        Seq::empty()
    } else {
        let before = knowledge_errors(knowledge.drop_last());
        match knowledge.last().outcome {
            Some(ReadView::Failed(error)) => before.push(
                "Error reading knowledge file "@ + knowledge.last().title + ": "@ + error,
            ),
            _ => before,
        }
    }
}

/// The recent changes, if a diff was asked for and it is not blank.
pub open spec fn change_contexts(printed: Option<Seq<char>>) -> Seq<RContextView> {
    match printed {
        Some(diff) => if trimmed(diff).len() == 0 {
            Seq::empty()
        } else {
            seq![RContextView::RecentChanges { diff }]
        },
        None => Seq::empty(),
    }
}

/// The context of a request: files, then knowledge, then commands, then recent
/// changes.
pub open spec fn gathered_contexts(
    files: Seq<FileReadView>,
    knowledge: Seq<KnowledgeReadView>,
    commands: Seq<RContextView>,
    printed_diff: Option<Seq<char>>,
) -> Seq<RContextView> {
    file_contexts(files) + knowledge_contexts(knowledge) + commands + change_contexts(printed_diff)
}

/// The context of a request, or why the diff that was asked for it cannot be had.
pub open spec fn read_contexts(
    files: Seq<FileReadView>,
    knowledge: Seq<KnowledgeReadView>,
    commands: Seq<RContextView>,
    diff: Option<ReadView>,
) -> Result<Seq<RContextView>, Seq<char>> {
    match diff {
        Some(ReadView::Text(printed)) => Ok(
            gathered_contexts(files, knowledge, commands, Some(printed)),
        ),
        Some(ReadView::Failed(error)) => Err(error),
        None => Ok(gathered_contexts(files, knowledge, commands, None)),
    }
}

/// The name of the file that holds the knowledge with this title.
pub open spec fn knowledge_file(title: Seq<char>) -> Seq<char> {
    title + ".md"@
}

/// The name of the file that holds the knowledge with this title.
pub fn knowledge_file_name(title: &String) -> (name: String)
    ensures
        name@ == knowledge_file(title@),
{
    let mut name = title.clone();
    name.append(".md");
    name
}

/// Whether these are the readings of the files at `paths`.
fn are_readings_of(files: &Vec<FileRead>, paths: &Vec<String>) -> (r: bool)
    ensures
        r == (files.deep_view().map_values(|file: FileReadView| file.path) == paths.deep_view()),
{
    let ghost read = files.deep_view().map_values(|file: FileReadView| file.path);
    if files.len() != paths.len() {
        assert(read.len() != paths.deep_view().len());
        return false;
    }
    for i in 0..files.len()
        invariant
            files.len() == paths.len(),
            read == files.deep_view().map_values(|file: FileReadView| file.path),
            forall|j: int| 0 <= j < i ==> read[j] == paths.deep_view()[j],
    {
        if files[i].path != paths[i] {
            assert(read[i as int] != paths.deep_view()[i as int]);
            return false;
        }
    }
    assert(read =~= paths.deep_view());
    true
}

/// Whether these are the readings of the knowledge with `titles`.
fn are_readings_of_titles(knowledge: &Vec<KnowledgeRead>, titles: &Vec<String>) -> (r: bool)
    ensures
        r == (knowledge.deep_view().map_values(|file: KnowledgeReadView| file.title)
            == titles.deep_view()),
{
    let ghost read = knowledge.deep_view().map_values(|file: KnowledgeReadView| file.title);
    if knowledge.len() != titles.len() {
        assert(read.len() != titles.deep_view().len());
        return false;
    }
    for i in 0..knowledge.len()
        invariant
            knowledge.len() == titles.len(),
            read == knowledge.deep_view().map_values(|file: KnowledgeReadView| file.title),
            forall|j: int| 0 <= j < i ==> read[j] == titles.deep_view()[j],
    {
        if knowledge[i].title != titles[i] {
            assert(read[i as int] != titles.deep_view()[i as int]);
            return false;
        }
    }
    assert(read =~= titles.deep_view());
    true
}

/// Whether these are the readings of the files at `paths`, of the knowledge with
/// `titles`, and of a diff exactly if one was wanted.
pub(crate) fn is_answer_to_gather(
    paths: &Vec<String>,
    titles: &Vec<String>,
    with_diff: bool,
    files: &Vec<FileRead>,
    knowledge: &Vec<KnowledgeRead>,
    diff: &Option<ReadOutcome>,
) -> (r: bool)
    ensures
        r == answers_gather(
            paths.deep_view(),
            titles.deep_view(),
            with_diff,
            files.deep_view(),
            knowledge.deep_view(),
            diff.deep_view(),
        ),
{
    are_readings_of(files, paths) && are_readings_of_titles(knowledge, titles) && diff.is_some()
        == with_diff
}

/// Takes the files that were read into the context.
fn add_files(files: Vec<FileRead>, context: &mut Vec<RContext>, errors: &mut Vec<String>)
    ensures
        final(context).deep_view() == old(context).deep_view() + file_contexts(files.deep_view()),
        final(errors).deep_view() == old(errors).deep_view() + file_errors(files.deep_view()),
{
    let ghost all = files.deep_view();
    let ghost had = context.deep_view();
    let ghost had_errors = errors.deep_view();
    assert(had =~= had + file_contexts(all.take(0)));
    assert(had_errors =~= had_errors + file_errors(all.take(0)));
    for file in iter: files
        invariant
            iter.seq() == files@,
            all == files.deep_view(),
            context.deep_view() == had + file_contexts(all.take(iter.index() as int)),
            errors.deep_view() == had_errors + file_errors(all.take(iter.index() as int)),
    {
        let ghost i = iter.index() as int;
        let ghost before = context.deep_view();
        let ghost before_errors = errors.deep_view();
        assert(all.take(i + 1).drop_last() =~= all.take(i));
        assert(all.take(i + 1).last() == file.deep_view());
        match file.outcome {
            ReadOutcome::Text(text) => {
                context.push(RContext::File { path: file.path, text });
                assert(context.deep_view() =~= before.push(
                    RContextView::File { path: file.path@, text: text@ },
                ));
            },
            ReadOutcome::Failed(error) => {
                let mut line = "Error reading file ".to_owned();
                line.append(file.path.as_str());
                line.append(": ");
                line.append(error.as_str());
                errors.push(line);
                assert(errors.deep_view() =~= before_errors.push(line@));
            },
        }
        assert(context.deep_view() =~= had + file_contexts(all.take(i + 1)));
        assert(errors.deep_view() =~= had_errors + file_errors(all.take(i + 1)));
    }
    assert(all.take(files.len() as int) =~= all);
}

/// Takes the knowledge files that were read into the context.
fn add_knowledge(
    knowledge: Vec<KnowledgeRead>,
    context: &mut Vec<RContext>,
    errors: &mut Vec<String>,
)
    ensures
        final(context).deep_view() == old(context).deep_view() + knowledge_contexts(
            knowledge.deep_view(),
        ),
        final(errors).deep_view() == old(errors).deep_view() + knowledge_errors(
            knowledge.deep_view(),
        ),
{
    let ghost all = knowledge.deep_view();
    let ghost had = context.deep_view();
    let ghost had_errors = errors.deep_view();
    assert(had =~= had + knowledge_contexts(all.take(0)));
    assert(had_errors =~= had_errors + knowledge_errors(all.take(0)));
    for file in iter: knowledge
        invariant
            iter.seq() == knowledge@,
            all == knowledge.deep_view(),
            context.deep_view() == had + knowledge_contexts(all.take(iter.index() as int)),
            errors.deep_view() == had_errors + knowledge_errors(all.take(iter.index() as int)),
    {
        let ghost i = iter.index() as int;
        let ghost before = context.deep_view();
        let ghost before_errors = errors.deep_view();
        assert(all.take(i + 1).drop_last() =~= all.take(i));
        assert(all.take(i + 1).last() == file.deep_view());
        match file.outcome {
            Some(ReadOutcome::Text(text)) => {
                context.push(RContext::Knowledge { title: file.title, text });
                assert(context.deep_view() =~= before.push(
                    RContextView::Knowledge { title: file.title@, text: text@ },
                ));
            },
            Some(ReadOutcome::Failed(error)) => {
                let mut line = "Error reading knowledge file ".to_owned();
                line.append(file.title.as_str());
                line.append(": ");
                line.append(error.as_str());
                errors.push(line);
                assert(errors.deep_view() =~= before_errors.push(line@));
            },
            None => {},
        }
        assert(context.deep_view() =~= had + knowledge_contexts(all.take(i + 1)));
        assert(errors.deep_view() =~= had_errors + knowledge_errors(all.take(i + 1)));
    }
    assert(all.take(knowledge.len() as int) =~= all);
}

/// Takes the outputs of commands into the context.
fn add_commands(commands: &Vec<RContext>, context: &mut Vec<RContext>)
    ensures
        final(context).deep_view() == old(context).deep_view() + commands.deep_view(),
{
    let ghost all = commands.deep_view();
    let ghost had = context.deep_view();
    assert(had =~= had + all.take(0));
    for i in 0..commands.len()
        invariant
            all == commands.deep_view(),
            context.deep_view() == had + all.take(i as int),
    {
        let ghost before = context.deep_view();
        context.push(commands[i].clone());
        assert(context.deep_view() =~= before.push(all[i as int]));
        assert(context.deep_view() =~= had + all.take(i + 1));
    }
    assert(all.take(commands.len() as int) =~= all);
}

/// Puts a request together with the context that was read for it: the pending
/// files and the loaded knowledge as far as they could be read, the outputs of
/// commands, and what the diff printed if it was asked for. Without a diff that was
/// asked for there is no request.
pub fn build_human_message(
    files: Vec<FileRead>,
    knowledge: Vec<KnowledgeRead>,
    commands: &Vec<RContext>,
    diff: Option<ReadOutcome>,
    request: String,
) -> (gathered: Gathered)
    ensures
        match gathered.message {
            Ok(message) => read_contexts(
                files.deep_view(),
                knowledge.deep_view(),
                commands.deep_view(),
                diff.deep_view(),
            ) == Ok::<Seq<RContextView>, Seq<char>>(message.context.deep_view())
                && message.user_request@ == request@,
            Err(error) => read_contexts(
                files.deep_view(),
                knowledge.deep_view(),
                commands.deep_view(),
                diff.deep_view(),
            ) == Err::<Seq<RContextView>, Seq<char>>(error@),
        },
        gathered.errors.deep_view() == file_errors(files.deep_view()) + knowledge_errors(
            knowledge.deep_view(),
        ),
{
    let mut context: Vec<RContext> = Vec::new();
    let mut errors: Vec<String> = Vec::new();
    add_files(files, &mut context, &mut errors);
    add_knowledge(knowledge, &mut context, &mut errors);
    add_commands(commands, &mut context);
    assert(errors.deep_view() =~= file_errors(files.deep_view()) + knowledge_errors(
        knowledge.deep_view(),
    ));
    let ghost before = context.deep_view();
    assert(before =~= file_contexts(files.deep_view()) + knowledge_contexts(knowledge.deep_view())
        + commands.deep_view());
    match diff {
        Some(ReadOutcome::Text(printed)) => {
            if let Some(diff) = get_diff(printed) {
                context.push(RContext::RecentChanges { diff });
            }
            assert(context.deep_view() =~= before + change_contexts(Some(printed@)));
        },
        Some(ReadOutcome::Failed(error)) => {
            return Gathered { message: Err(error), errors };
        },
        None => {
            assert(context.deep_view() =~= before + change_contexts(None));
        },
    }
    Gathered { message: Ok(HumanMessage { user_request: request, context }), errors }
}

/// Every pending file is accounted for: it stands in the context or in an error,
/// and in one of them only.
pub proof fn every_file_is_accounted_for(files: Seq<FileReadView>)
    ensures
        file_contexts(files).len() + file_errors(files).len() == files.len(),
    decreases files.len(),
{
    if files.len() > 0 {
        every_file_is_accounted_for(files.drop_last());
    }
}

/// If every pending file could be read, the context starts with all of them, in
/// their order, and none of them gives an error.
pub proof fn readable_files_open_the_context(
    files: Seq<FileReadView>,
    knowledge: Seq<KnowledgeReadView>,
    commands: Seq<RContextView>,
    printed_diff: Option<Seq<char>>,
)
    requires
        forall|i: int| 0 <= i < files.len() ==> (#[trigger] files[i]).outcome is Text,
    ensures
        file_errors(files).len() == 0,
        gathered_contexts(files, knowledge, commands, printed_diff).len() >= files.len(),
        forall|i: int|
            0 <= i < files.len() ==> #[trigger] gathered_contexts(
                files,
                knowledge,
                commands,
                printed_diff,
            )[i] == (RContextView::File { path: files[i].path, text: files[i].outcome->Text_0 }),
    decreases files.len(),
{
    if files.len() > 0 {
        let before = files.drop_last();
        assert forall|i: int| 0 <= i < before.len() implies (
        #[trigger] before[i]).outcome is Text by {
            assert(files[i].outcome is Text);
        }
        readable_files_open_the_context(before, knowledge, commands, printed_diff);
        every_file_is_accounted_for(before);
        assert(files[files.len() - 1].outcome is Text);
        let short = gathered_contexts(before, knowledge, commands, printed_diff);
        let long = gathered_contexts(files, knowledge, commands, printed_diff);
        assert forall|i: int| 0 <= i < files.len() implies #[trigger] long[i] == (
        RContextView::File { path: files[i].path, text: files[i].outcome->Text_0 }) by {
            if i < before.len() {
                assert(short[i] == file_contexts(before)[i]);
                assert(before[i] == files[i]);
            }
        }
    }
}

/// Files are taken up one by one and in their order: what two stretches of them give,
/// context and errors alike, is what each of them gives, one after the other.
pub proof fn files_are_taken_up_in_order(first: Seq<FileReadView>, rest: Seq<FileReadView>)
    ensures
        file_contexts(first + rest) == file_contexts(first) + file_contexts(rest),
        file_errors(first + rest) == file_errors(first) + file_errors(rest),
    decreases rest.len(),
{
    if rest.len() == 0 {
        assert(first + rest =~= first);
        assert(file_contexts(first) =~= file_contexts(first) + file_contexts(rest));
        assert(file_errors(first) =~= file_errors(first) + file_errors(rest));
    } else {
        files_are_taken_up_in_order(first, rest.drop_last());
        assert((first + rest).drop_last() =~= first + rest.drop_last());
        assert(file_contexts(first + rest) =~= file_contexts(first) + file_contexts(rest));
        assert(file_errors(first + rest) =~= file_errors(first) + file_errors(rest));
    }
}

/// A file that could be read gives its text under its path and no error; one that could
/// not gives no context and one error, which names it and says why.
pub proof fn a_file_gives_its_text_or_an_error(path: Seq<char>, text: Seq<char>)
    ensures
        ({
            let read = seq![FileReadView { path, outcome: ReadView::Text(text) }];
            &&& file_contexts(read) == seq![RContextView::File { path, text }]
            &&& file_errors(read).len() == 0
        }),
        ({
            let unread = seq![FileReadView { path, outcome: ReadView::Failed(text) }];
            &&& file_contexts(unread).len() == 0
            &&& file_errors(unread) == seq!["Error reading file "@ + path + ": "@ + text]
        }),
{
    reveal_with_fuel(file_contexts, 2);
    reveal_with_fuel(file_errors, 2);
    let read = seq![FileReadView { path, outcome: ReadView::Text(text) }];
    assert(file_contexts(read) =~= seq![RContextView::File { path, text }]);
    let unread = seq![FileReadView { path, outcome: ReadView::Failed(text) }];
    assert(file_errors(unread) =~= seq!["Error reading file "@ + path + ": "@ + text]);
}

/// Knowledge files are taken up one by one and in their order: what two stretches of
/// them give, context and errors alike, is what each of them gives, one after the
/// other.
pub proof fn knowledge_is_taken_up_in_order(
    first: Seq<KnowledgeReadView>,
    rest: Seq<KnowledgeReadView>,
)
    ensures
        knowledge_contexts(first + rest) == knowledge_contexts(first) + knowledge_contexts(rest),
        knowledge_errors(first + rest) == knowledge_errors(first) + knowledge_errors(rest),
    decreases rest.len(),
{
    if rest.len() == 0 {
        assert(first + rest =~= first);
        assert(knowledge_contexts(first) =~= knowledge_contexts(first) + knowledge_contexts(rest));
        assert(knowledge_errors(first) =~= knowledge_errors(first) + knowledge_errors(rest));
    } else {
        knowledge_is_taken_up_in_order(first, rest.drop_last());
        assert((first + rest).drop_last() =~= first + rest.drop_last());
        assert(knowledge_contexts(first + rest) =~= knowledge_contexts(first)
            + knowledge_contexts(rest));
        assert(knowledge_errors(first + rest) =~= knowledge_errors(first) + knowledge_errors(rest));
    }
}

/// A knowledge file that could be read gives its text under its title and no error; one
/// that was there and could not be read gives no context and one error, which names it
/// and says why; and one that was not there gives neither.
pub proof fn knowledge_gives_its_text_or_an_error(title: Seq<char>, text: Seq<char>)
    ensures
        ({
            let read = seq![KnowledgeReadView { title, outcome: Some(ReadView::Text(text)) }];
            &&& knowledge_contexts(read) == seq![RContextView::Knowledge { title, text }]
            &&& knowledge_errors(read).len() == 0
        }),
        ({
            let unread = seq![KnowledgeReadView { title, outcome: Some(ReadView::Failed(text)) }];
            &&& knowledge_contexts(unread).len() == 0
            &&& knowledge_errors(unread) == seq![
                "Error reading knowledge file "@ + title + ": "@ + text,
            ]
        }),
        ({
            let missing = seq![KnowledgeReadView { title, outcome: None }];
            &&& knowledge_contexts(missing).len() == 0
            &&& knowledge_errors(missing).len() == 0
        }),
{
    reveal_with_fuel(knowledge_contexts, 2);
    reveal_with_fuel(knowledge_errors, 2);
    let read = seq![KnowledgeReadView { title, outcome: Some(ReadView::Text(text)) }];
    assert(knowledge_contexts(read) =~= seq![RContextView::Knowledge { title, text }]);
    let unread = seq![KnowledgeReadView { title, outcome: Some(ReadView::Failed(text)) }];
    assert(knowledge_errors(unread) =~= seq![
        "Error reading knowledge file "@ + title + ": "@ + text,
    ]);
}

/// Every loaded knowledge file is accounted for: it stands in the context, in an error,
/// or was not there, and only one of these.
pub proof fn every_knowledge_file_is_accounted_for(knowledge: Seq<KnowledgeReadView>)
    ensures
        knowledge_contexts(knowledge).len() + knowledge_errors(knowledge).len() + knowledge.filter(
            |file: KnowledgeReadView| file.outcome is None,
        ).len() == knowledge.len(),
    decreases knowledge.len(),
{
    reveal(Seq::filter);
    if knowledge.len() > 0 {
        every_knowledge_file_is_accounted_for(knowledge.drop_last());
    }
}

/// Every knowledge file that could be read stands in the context, after all files and
/// after everything that the knowledge loaded before it gave.
pub proof fn readable_knowledge_stands_in_the_context(
    files: Seq<FileReadView>,
    knowledge: Seq<KnowledgeReadView>,
    commands: Seq<RContextView>,
    printed_diff: Option<Seq<char>>,
    i: int,
)
    requires
        0 <= i < knowledge.len(),
        knowledge[i].outcome matches Some(ReadView::Text(_)),
    ensures
        ({
            let contexts = gathered_contexts(files, knowledge, commands, printed_diff);
            let at = file_contexts(files).len() + knowledge_contexts(knowledge.take(i)).len();
            &&& at < contexts.len()
            &&& contexts[at as int] == (RContextView::Knowledge {
                title: knowledge[i].title,
                text: knowledge[i].outcome->0->Text_0,
            })
            &&& knowledge_contexts(knowledge.take(i)).len() <= i
        }),
{
    let before = knowledge.take(i);
    let this = seq![knowledge[i]];
    let rest = knowledge.skip(i + 1);
    assert(knowledge =~= before + this + rest);
    knowledge_is_taken_up_in_order(before + this, rest);
    knowledge_is_taken_up_in_order(before, this);
    knowledge_gives_its_text_or_an_error(knowledge[i].title, knowledge[i].outcome->0->Text_0);
    every_knowledge_file_is_accounted_for(before);
}

/// If every loaded knowledge file was there and could be read, all of them stand in the
/// context right after the files, in their order, and none of them gives an error.
pub proof fn readable_knowledge_follows_the_files(
    files: Seq<FileReadView>,
    knowledge: Seq<KnowledgeReadView>,
    commands: Seq<RContextView>,
    printed_diff: Option<Seq<char>>,
    i: int,
)
    requires
        forall|j: int|
            0 <= j < knowledge.len() ==> (#[trigger] knowledge[j]).outcome matches Some(
                ReadView::Text(_),
            ),
    ensures
        knowledge_errors(knowledge).len() == 0,
        knowledge_contexts(knowledge).len() == knowledge.len(),
        0 <= i < knowledge.len() ==> gathered_contexts(files, knowledge, commands, printed_diff)[
        file_contexts(files).len() + i] == (RContextView::Knowledge {
            title: knowledge[i].title,
            text: knowledge[i].outcome->0->Text_0,
        }),
{
    readable_knowledge_gives_no_error(knowledge);
    if 0 <= i < knowledge.len() {
        let before = knowledge.take(i);
        assert forall|j: int| 0 <= j < before.len() implies (
        #[trigger] before[j]).outcome matches Some(ReadView::Text(_)) by {
            assert(knowledge[j].outcome matches Some(ReadView::Text(_)));
        }
        readable_knowledge_gives_no_error(before);
        assert(knowledge[i].outcome matches Some(ReadView::Text(_)));
        readable_knowledge_stands_in_the_context(files, knowledge, commands, printed_diff, i);
    }
}

proof fn readable_knowledge_gives_no_error(knowledge: Seq<KnowledgeReadView>)
    requires
        forall|j: int|
            0 <= j < knowledge.len() ==> (#[trigger] knowledge[j]).outcome matches Some(
                ReadView::Text(_),
            ),
    ensures
        knowledge_errors(knowledge).len() == 0,
        knowledge_contexts(knowledge).len() == knowledge.len(),
    decreases knowledge.len(),
{
    if knowledge.len() > 0 {
        let before = knowledge.drop_last();
        assert forall|j: int| 0 <= j < before.len() implies (
        #[trigger] before[j]).outcome matches Some(ReadView::Text(_)) by {
            assert(knowledge[j].outcome matches Some(ReadView::Text(_)));
        }
        readable_knowledge_gives_no_error(before);
        assert(knowledge[knowledge.len() - 1].outcome matches Some(ReadView::Text(_)));
    }
}

/// Every file that could be read stands in the context, after everything that the files
/// before it gave, whether they could be read or not.
pub proof fn readable_files_stand_in_the_context(
    files: Seq<FileReadView>,
    knowledge: Seq<KnowledgeReadView>,
    commands: Seq<RContextView>,
    printed_diff: Option<Seq<char>>,
    i: int,
)
    requires
        0 <= i < files.len(),
        files[i].outcome is Text,
    ensures
        ({
            let contexts = gathered_contexts(files, knowledge, commands, printed_diff);
            let at = file_contexts(files.take(i)).len();
            &&& at <= i
            &&& at < contexts.len()
            &&& contexts[at as int] == (RContextView::File {
                path: files[i].path,
                text: files[i].outcome->Text_0,
            })
        }),
{
    let before = files.take(i);
    let this = seq![files[i]];
    let rest = files.skip(i + 1);
    assert(files =~= before + this + rest);
    files_are_taken_up_in_order(before + this, rest);
    files_are_taken_up_in_order(before, this);
    a_file_gives_its_text_or_an_error(files[i].path, files[i].outcome->Text_0);
    every_file_is_accounted_for(before);
}

/// The context holds what the files, the knowledge, the commands and the diff give, in
/// this order, and nothing else.
pub proof fn context_holds_nothing_else(
    files: Seq<FileReadView>,
    knowledge: Seq<KnowledgeReadView>,
    commands: Seq<RContextView>,
    printed: Seq<char>,
)
    ensures
        gathered_contexts(files, knowledge, commands, None) == file_contexts(files)
            + knowledge_contexts(knowledge) + commands,
        trimmed(printed).len() > 0 ==> gathered_contexts(files, knowledge, commands, Some(printed))
            == gathered_contexts(files, knowledge, commands, None).push(
            RContextView::RecentChanges { diff: printed },
        ),
        trimmed(printed).len() == 0 ==> gathered_contexts(files, knowledge, commands, Some(printed))
            == gathered_contexts(files, knowledge, commands, None),
        gathered_contexts(files, knowledge, commands, None).len() == file_contexts(files).len()
            + knowledge_contexts(knowledge).len() + commands.len(),
{
    assert(gathered_contexts(files, knowledge, commands, None) =~= file_contexts(files)
        + knowledge_contexts(knowledge) + commands);
    if trimmed(printed).len() > 0 {
        assert(gathered_contexts(files, knowledge, commands, Some(printed)) =~= gathered_contexts(
            files,
            knowledge,
            commands,
            None,
        ).push(RContextView::RecentChanges { diff: printed }));
    } else {
        assert(gathered_contexts(files, knowledge, commands, Some(printed)) =~= gathered_contexts(
            files,
            knowledge,
            commands,
            None,
        ));
    }
}

/// A request has no context exactly if the diff that was asked for it could not be read,
/// and the reason is the one that reading it gave.
pub proof fn only_an_unread_diff_refuses_the_context(
    files: Seq<FileReadView>,
    knowledge: Seq<KnowledgeReadView>,
    commands: Seq<RContextView>,
    diff: Option<ReadView>,
    error: Seq<char>,
)
    ensures
        read_contexts(files, knowledge, commands, diff) == Err::<Seq<RContextView>, Seq<char>>(
            error,
        ) <==> diff == Some(ReadView::Failed(error)),
        diff matches Some(ReadView::Text(printed)) ==> read_contexts(
            files,
            knowledge,
            commands,
            diff,
        ) == Ok::<Seq<RContextView>, Seq<char>>(
            gathered_contexts(files, knowledge, commands, Some(printed)),
        ),
        diff is None ==> read_contexts(files, knowledge, commands, diff) == Ok::<
            Seq<RContextView>,
            Seq<char>,
        >(gathered_contexts(files, knowledge, commands, None)),
{
}

/// A reading answers a request for context only if it holds every file and every
/// knowledge file that was asked for, each at its place, no others, and a diff exactly
/// if one was wanted.
pub proof fn answers_hold_what_was_asked_for(
    paths: Seq<Seq<char>>,
    titles: Seq<Seq<char>>,
    with_diff: bool,
    files: Seq<FileReadView>,
    knowledge: Seq<KnowledgeReadView>,
    diff: Option<ReadView>,
)
    ensures
        answers_gather(paths, titles, with_diff, files, knowledge, diff) <==> {
            &&& files.len() == paths.len()
            &&& forall|i: int| 0 <= i < files.len() ==> (#[trigger] files[i]).path == paths[i]
            &&& knowledge.len() == titles.len()
            &&& forall|i: int|
                0 <= i < knowledge.len() ==> (#[trigger] knowledge[i]).title == titles[i]
            &&& diff is Some == with_diff
        },
{
    let read = files.map_values(|file: FileReadView| file.path);
    let loaded = knowledge.map_values(|file: KnowledgeReadView| file.title);
    if answers_gather(paths, titles, with_diff, files, knowledge, diff) {
        assert forall|i: int| 0 <= i < files.len() implies (
        #[trigger] files[i]).path == paths[i] by {
            assert(read[i] == paths[i]);
        }
        assert forall|i: int| 0 <= i < knowledge.len() implies (
        #[trigger] knowledge[i]).title == titles[i] by {
            assert(loaded[i] == titles[i]);
        }
    }
    if files.len() == paths.len() && (forall|i: int|
        0 <= i < files.len() ==> (#[trigger] files[i]).path == paths[i]) && knowledge.len()
        == titles.len() && (forall|i: int|
        0 <= i < knowledge.len() ==> (#[trigger] knowledge[i]).title == titles[i]) && (diff is Some
        == with_diff) {
        assert(read =~= paths);
        assert(loaded =~= titles);
    }
}

/// Knowledge is kept in a file that is named after its title, with `.md` behind it.
pub proof fn knowledge_files_are_named_after_their_titles(title: Seq<char>, other: Seq<char>)
    ensures
        knowledge_file(title) == title + ".md"@,
        knowledge_file(title) == knowledge_file(other) ==> title == other,
{
    if knowledge_file(title) == knowledge_file(other) {
        let name = knowledge_file(title);
        assert(title =~= name.take(name.len() - ".md"@.len()));
        assert(other =~= name.take(name.len() - ".md"@.len()));
    }
}

/// The views show every part of what they are views of.
pub proof fn reading_views_show_every_part(
    outcome: ReadOutcome,
    file: FileRead,
    knowledge: KnowledgeRead,
)
    ensures
        outcome matches ReadOutcome::Text(text) ==> outcome.deep_view() == ReadView::Text(text@),
        outcome matches ReadOutcome::Failed(error) ==> outcome.deep_view() == ReadView::Failed(
            error@,
        ),
        file.deep_view().path == file.path@,
        file.deep_view().outcome == file.outcome.deep_view(),
        knowledge.deep_view().title == knowledge.title@,
        knowledge.deep_view().outcome == knowledge.outcome.deep_view(),
{
}

} // verus!
