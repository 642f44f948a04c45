//! The lines that show what is pending and what is loaded.

use vstd::prelude::*;

use crate::context::{RContext, RContextView};
use crate::text::{decimal, push_decimal};

verus! {

/// The lines that show the pending files, each with its index.
pub open spec fn pending_file_lines(paths: Seq<Seq<char>>) -> Seq<Seq<char>> {
    if paths.len() == 0 {
        seq!["No pending files."@]
    } else {
        seq!["\nPending files:"@] + Seq::new(
            paths.len(),
            |i: int| "["@ + decimal(i as nat) + "] "@ + paths[i],
        )
    }
}

/// The lines for those of `contexts` that are commands, each with its index among
/// all of them.
pub open spec fn command_lines(contexts: Seq<RContextView>) -> Seq<Seq<char>>
    decreases contexts.len(),
{
    if contexts.len() == 0 {
        Seq::empty()
    } else {
        let before = command_lines(contexts.drop_last());
        match contexts.last() {
            RContextView::Command { command, .. } => before.push(
                "["@ + decimal((contexts.len() - 1) as nat) + "] Command: "@ + command,
            ),
            _ => before,
        }
    }
}

/// The lines that show the commands whose output is pending.
pub open spec fn pending_command_lines(contexts: Seq<RContextView>) -> Seq<Seq<char>> {
    if contexts.len() == 0 {
        seq!["No command outputs in context."@]
    } else {
        seq!["\nPending command outputs:"@] + command_lines(contexts)
    }
}

/// The lines that show the loaded knowledge files.
pub open spec fn loaded_knowledge_lines(titles: Seq<Seq<char>>) -> Seq<Seq<char>> {
    if titles.len() == 0 {
        seq!["No knowledge files loaded."@]
    } else {
        seq!["\nLoaded knowledge files:"@] + Seq::new(titles.len(), |i: int| "  "@ + titles[i])
    }
}

/// Lists the pending files.
pub fn list_pending_files(paths: &Vec<String>) -> (lines: Vec<String>)
    ensures
        lines.deep_view() == pending_file_lines(paths.deep_view()),
{
    let mut lines: Vec<String> = Vec::new();
    if paths.len() == 0 {
        lines.push("No pending files.".to_owned());
        assert(lines.deep_view() =~= pending_file_lines(paths.deep_view()));
        return lines;
    }
    lines.push("\nPending files:".to_owned());
    for i in 0..paths.len()
        invariant
            paths.len() > 0,
            lines.deep_view() == pending_file_lines(paths.deep_view()).take(i + 1),
    {
        let mut line = "[".to_owned();
        push_decimal(&mut line, i as u64);
        line.append("] ");
        line.append(paths[i].as_str());
        assert(line@ == pending_file_lines(paths.deep_view())[i + 1]);
        let ghost before = lines.deep_view();
        lines.push(line);
        assert(lines.deep_view() =~= before.push(line@));
        assert(lines.deep_view() =~= pending_file_lines(paths.deep_view()).take(i + 2));
    }
    assert(lines.deep_view() =~= pending_file_lines(paths.deep_view()));
    lines
}

/// Lists the commands whose output is pending.
pub fn list_pending_commands(contexts: &Vec<RContext>) -> (lines: Vec<String>)
    ensures
        lines.deep_view() == pending_command_lines(contexts.deep_view()),
{
    let mut lines: Vec<String> = Vec::new();
    if contexts.len() == 0 {
        lines.push("No command outputs in context.".to_owned());
        assert(lines.deep_view() =~= pending_command_lines(contexts.deep_view()));
        return lines;
    }
    let ghost all = contexts.deep_view();
    let ghost head = seq!["\nPending command outputs:"@];
    lines.push("\nPending command outputs:".to_owned());
    assert(lines.deep_view() =~= head + command_lines(all.take(0)));
    for i in 0..contexts.len()
        invariant
            all == contexts.deep_view(),
            lines.deep_view() == head + command_lines(all.take(i as int)),
    {
        let ghost before = lines.deep_view();
        assert(all.take(i + 1).drop_last() =~= all.take(i as int));
        assert(all.take(i + 1).last() == contexts[i as int]@);
        if let RContext::Command { command, .. } = &contexts[i] {
            let mut line = "[".to_owned();
            push_decimal(&mut line, i as u64);
            line.append("] Command: ");
            line.append(command.as_str());
            lines.push(line);
            assert(lines.deep_view() =~= before.push(line@));
        }
        assert(lines.deep_view() =~= head + command_lines(all.take(i + 1)));
    }
    assert(all.take(contexts.len() as int) =~= all);
    lines
}

/// Lists the loaded knowledge files.
pub fn list_loaded_knowledge(titles: &Vec<String>) -> (lines: Vec<String>)
    ensures
        lines.deep_view() == loaded_knowledge_lines(titles.deep_view()),
{
    let mut lines: Vec<String> = Vec::new();
    if titles.len() == 0 {
        lines.push("No knowledge files loaded.".to_owned());
        assert(lines.deep_view() =~= loaded_knowledge_lines(titles.deep_view()));
        return lines;
    }
    lines.push("\nLoaded knowledge files:".to_owned());
    for i in 0..titles.len()
        invariant
            titles.len() > 0,
            lines.deep_view() == loaded_knowledge_lines(titles.deep_view()).take(i + 1),
    {
        let mut line = "  ".to_owned();
        line.append(titles[i].as_str());
        assert(line@ == loaded_knowledge_lines(titles.deep_view())[i + 1]);
        let ghost before = lines.deep_view();
        lines.push(line);
        assert(lines.deep_view() =~= before.push(line@));
        assert(lines.deep_view() =~= loaded_knowledge_lines(titles.deep_view()).take(i + 2));
    }
    assert(lines.deep_view() =~= loaded_knowledge_lines(titles.deep_view()));
    lines
}

/// Every pending file is listed on a line of its own, with its index and in its place,
/// under a heading; without files there is one line that says so.
pub proof fn every_pending_file_is_listed(paths: Seq<Seq<char>>, i: int)
    ensures
        paths.len() == 0 ==> pending_file_lines(paths) == seq!["No pending files."@],
        paths.len() > 0 ==> pending_file_lines(paths).len() == paths.len() + 1
            && pending_file_lines(paths)[0] == "\nPending files:"@,
        0 <= i < paths.len() ==> pending_file_lines(paths)[i + 1] == "["@ + decimal(i as nat)
            + "] "@ + paths[i],
{
}

/// Every loaded knowledge file is listed on a line of its own, indented and in its
/// place, under a heading; without any there is one line that says so.
pub proof fn every_loaded_knowledge_is_listed(titles: Seq<Seq<char>>, i: int)
    ensures
        titles.len() == 0 ==> loaded_knowledge_lines(titles) == seq!["No knowledge files loaded."@],
        titles.len() > 0 ==> loaded_knowledge_lines(titles).len() == titles.len() + 1
            && loaded_knowledge_lines(titles)[0] == "\nLoaded knowledge files:"@,
        0 <= i < titles.len() ==> loaded_knowledge_lines(titles)[i + 1] == "  "@ + titles[i],
{
}

/// Every command whose output is pending is listed on a line of its own, with its
/// index and in its place, under a heading; without any there is one line that says
/// so.
pub proof fn every_pending_command_is_listed(contexts: Seq<RContextView>, i: int)
    requires
        forall|j: int| 0 <= j < contexts.len() ==> (#[trigger] contexts[j]) is Command,
    ensures
        contexts.len() == 0 ==> pending_command_lines(contexts) == seq![
            "No command outputs in context."@,
        ],
        contexts.len() > 0 ==> pending_command_lines(contexts).len() == contexts.len() + 1
            && pending_command_lines(contexts)[0] == "\nPending command outputs:"@,
        0 <= i < contexts.len() ==> pending_command_lines(contexts)[i + 1] == "["@ + decimal(
            i as nat,
        ) + "] Command: "@ + contexts[i]->command,
    decreases contexts.len(),
{
    commands_are_listed_in_place(contexts, i);
}

proof fn commands_are_listed_in_place(contexts: Seq<RContextView>, i: int)
    requires
        forall|j: int| 0 <= j < contexts.len() ==> (#[trigger] contexts[j]) is Command,
    ensures
        command_lines(contexts).len() == contexts.len(),
        0 <= i < contexts.len() ==> command_lines(contexts)[i] == "["@ + decimal(i as nat)
            + "] Command: "@ + contexts[i]->command,
    decreases contexts.len(),
{
    if contexts.len() > 0 {
        let before = contexts.drop_last();
        assert forall|j: int| 0 <= j < before.len() implies (#[trigger] before[j]) is Command by {
            assert(contexts[j] is Command);
        }
        commands_are_listed_in_place(before, i);
        assert(contexts[contexts.len() - 1] is Command);
    }
}

/// Only commands are listed as such, each with its index among all pieces of context:
/// another piece adds no line, and a command adds one at the end.
pub proof fn only_commands_are_listed(contexts: Seq<RContextView>, next: RContextView)
    requires
        contexts.len() > 0,
    ensures
        next is Command ==> pending_command_lines(contexts.push(next)) == pending_command_lines(
            contexts,
        ).push("["@ + decimal(contexts.len()) + "] Command: "@ + next->command),
        !(next is Command) ==> pending_command_lines(contexts.push(next))
            == pending_command_lines(contexts),
{
    assert(contexts.push(next).drop_last() =~= contexts);
    if next is Command {
        assert(pending_command_lines(contexts.push(next)) =~= pending_command_lines(contexts).push(
            "["@ + decimal(contexts.len()) + "] Command: "@ + next->command,
        ));
    }
}

} // verus!
