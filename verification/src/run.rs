//! Following a shell command: its lines are shown as they come and kept, and how it
//! ended is kept with them.

use vstd::prelude::*;

use crate::text::{push_signed_decimal, signed_decimal};

verus! {

/// The streams that a command writes to.
#[derive(Clone, Copy, Debug, PartialEq, Eq, Structural)]
pub enum Stream {
    Stdout,
    Stderr,
}

/// A command that is being followed.
#[derive(Debug)]
pub struct CommandRun {
    /// The command's words.
    pub command: Vec<String>,
    /// Every line so far, each with its line break.
    pub output: String,
    /// Whether the standard output has ended.
    pub stdout_done: bool,
    /// Whether the standard error has ended.
    pub stderr_done: bool,
}

/// How a command ended.
#[derive(Debug)]
pub enum CommandExit {
    /// With success; the status in words.
    Success { status: String },
    /// With an exit code other than success.
    Code { code: i32 },
    /// By a signal.
    Signal,
}

/// The contents of a [`CommandRun`].
#[verifier::ext_equal]
pub struct RunView {
    pub command: Seq<Seq<char>>,
    pub output: Seq<char>,
    pub stdout_done: bool,
    pub stderr_done: bool,
}

impl View for CommandRun {
    type V = RunView;

    open spec fn view(&self) -> RunView {
        RunView {
            command: self.command.deep_view(),
            output: self.output@,
            stdout_done: self.stdout_done,
            stderr_done: self.stderr_done,
        }
    }
}

impl RunView {
    /// A command of which nothing has been heard yet.
    pub open spec fn fresh(command: Seq<Seq<char>>) -> RunView {
        RunView { command, output: Seq::empty(), stdout_done: false, stderr_done: false }
    }

    /// The run after a stream gave a line, or ended.
    pub open spec fn after(self, stream: Stream, line: Option<Seq<char>>) -> RunView {
        match line {
            Some(line) => RunView { output: self.output + line + seq!['\n'], ..self },
            None => match stream {
                Stream::Stdout => RunView { stdout_done: true, ..self },
                Stream::Stderr => RunView { stderr_done: true, ..self },
            },
        }
    }

    /// The stream has ended.
    pub open spec fn stream_ended(self, stream: Stream) -> bool {
        match stream {
            Stream::Stdout => self.stdout_done,
            Stream::Stderr => self.stderr_done,
        }
    }

    /// Both streams have ended.
    pub open spec fn ended(self) -> bool {
        self.stdout_done && self.stderr_done
    }

    /// The whole transcript of a run that ended so.
    pub open spec fn transcript(self, exit: CommandExit) -> Seq<char> {
        self.output + exit.spec_message() + seq!['\n']
    }

    /// The run after all of `heard`.
    pub open spec fn after_all(self, heard: Seq<(Stream, Option<Seq<char>>)>) -> RunView
        decreases heard.len(),
    {
        if heard.len() == 0 {
            self
        } else {
            self.after_all(heard.drop_last()).after(heard.last().0, heard.last().1)
        }
    }
}

impl CommandExit {
    /// How the command ended, in words.
    pub open spec fn spec_message(self) -> Seq<char> {
        match self {
            CommandExit::Success { status } => "Command exited with status: "@ + status@,
            CommandExit::Code { code } => {
                "Command exited with non-zero exit code: "@ + signed_decimal(code as int)
            },
            CommandExit::Signal => "Command terminated by signal"@,
        }
    }

    /// How the command ended, in words.
    pub fn message(&self) -> (text: String)
        ensures
            text@ == self.spec_message(),
    {
        match self {
            CommandExit::Success { status } => {
                let mut text = "Command exited with status: ".to_owned();
                text.append(status.as_str());
                text
            },
            CommandExit::Code { code } => {
                let mut text = "Command exited with non-zero exit code: ".to_owned();
                push_signed_decimal(&mut text, *code);
                text
            },
            CommandExit::Signal => "Command terminated by signal".to_owned(),
        }
    }
}

/// How a command ended, out of what is known of its exit: whether it was a success,
/// its code if it has one, and the status in words.
pub fn exit_of(success: bool, code: Option<i32>, status: String) -> (exit: CommandExit)
    ensures
        exit == (if success {
            CommandExit::Success { status }
        } else {
            match code {
                Some(code) => CommandExit::Code { code },
                None => CommandExit::Signal,
            }
        }),
{
    if success {
        CommandExit::Success { status }
    } else {
        match code {
            Some(code) => CommandExit::Code { code },
            None => CommandExit::Signal,
        }
    }
}

impl CommandRun {
    /// A command of which nothing has been heard yet.
    pub fn fresh(command: Vec<String>) -> (run: Self)
        ensures
            run@ == RunView::fresh(command.deep_view()),
    {
        CommandRun { command, output: String::new(), stdout_done: false, stderr_done: false }
    }

    /// Whether the stream has ended.
    pub fn stream_done(&self, stream: Stream) -> (ended: bool)
        ensures
            ended == self@.stream_ended(stream),
    {
        match stream {
            Stream::Stdout => self.stdout_done,
            Stream::Stderr => self.stderr_done,
        }
    }

    /// Takes a line from a stream, or its end.
    pub fn hear(&mut self, stream: Stream, line: &Option<String>)
        ensures
            final(self)@ == old(self)@.after(stream, line.deep_view()),
    {
        match line {
            Some(line) => {
                self.output.append(line.as_str());
                self.output.push('\n');
                assert(self.output@ =~= old(self).output@ + line@ + seq!['\n']);
            },
            None => match stream {
                Stream::Stdout => {
                    self.stdout_done = true;
                },
                Stream::Stderr => {
                    self.stderr_done = true;
                },
            },
        }
    }

    /// The whole transcript of a run that ended so.
    pub fn transcript(&self, exit: &CommandExit) -> (text: String)
        ensures
            text@ == self@.transcript(*exit),
    {
        let mut text = self.output.clone();
        text.append(exit.message().as_str());
        text.push('\n');
        assert(text@ =~= self@.transcript(*exit));
        text
    }
}

/// The lines among what was heard, in order and each with its line break.
pub open spec fn lines_heard(heard: Seq<(Stream, Option<Seq<char>>)>) -> Seq<char>
    decreases heard.len(),
{
    if heard.len() == 0 {
        Seq::empty()
    } else {
        let before = lines_heard(heard.drop_last());
        match heard.last().1 {
            Some(line) => before + line + seq!['\n'],
            None => before,
        }
    }
}

/// The transcript of a command holds every line that either stream gave, in the
/// order in which they came, and then how the command ended; and a command has
/// ended once both of its streams have, whatever came between.
pub proof fn a_transcript_is_complete(
    command: Seq<Seq<char>>,
    heard: Seq<(Stream, Option<Seq<char>>)>,
    exit: CommandExit,
)
    ensures
        RunView::fresh(command).after_all(heard).command == command,
        RunView::fresh(command).after_all(heard).transcript(exit) == lines_heard(heard)
            + exit.spec_message() + seq!['\n'],
        RunView::fresh(command).after_all(heard).ended() <==> heard.contains(
            (Stream::Stdout, None),
        ) && heard.contains((Stream::Stderr, None)),
{
    what_was_heard(command, heard);
}

/// A run keeps its command and every line that was heard, and each of its streams has
/// ended exactly if its end was heard.
pub proof fn what_was_heard(command: Seq<Seq<char>>, heard: Seq<(Stream, Option<Seq<char>>)>)
    ensures
        ({
            let run = RunView::fresh(command).after_all(heard);
            &&& run.command == command
            &&& run.output == lines_heard(heard)
            &&& run.stdout_done <==> heard.contains((Stream::Stdout, None))
            &&& run.stderr_done <==> heard.contains((Stream::Stderr, None))
        }),
    decreases heard.len(),
{
    if heard.len() > 0 {
        let before = heard.drop_last();
        what_was_heard(command, before);
        assert(heard =~= before.push(heard.last()));
        assert forall|e: (Stream, Option<Seq<char>>)|
            heard.contains(e) <==> before.contains(e) || e == heard.last() by {
            if before.contains(e) {
                let i = choose|i: int| 0 <= i < before.len() && before[i] == e;
                assert(heard[i] == e);
            }
            if e == heard.last() {
                assert(heard[heard.len() - 1] == e);
            }
            if heard.contains(e) && e != heard.last() {
                let i = choose|i: int| 0 <= i < heard.len() && heard[i] == e;
                assert(before[i] == e);
            }
        }
    }
}

/// What was heard is kept in its order and whole: what two stretches give is what each
/// of them gives, one after the other, a line gives itself and a line break, and the
/// end of a stream nothing.
pub proof fn lines_are_kept_in_order(
    first: Seq<(Stream, Option<Seq<char>>)>,
    rest: Seq<(Stream, Option<Seq<char>>)>,
    stream: Stream,
    line: Seq<char>,
)
    ensures
        lines_heard(first + rest) == lines_heard(first) + lines_heard(rest),
        lines_heard(seq![(stream, Some(line))]) == line + seq!['\n'],
        lines_heard(seq![(stream, None::<Seq<char>>)]) == Seq::<char>::empty(),
    decreases rest.len(),
{
    let one = seq![(stream, Some(line))];
    assert(one.drop_last() =~= Seq::empty());
    assert(lines_heard(one.drop_last()) == Seq::<char>::empty());
    assert(lines_heard(one) =~= line + seq!['\n']);
    let ended = seq![(stream, None::<Seq<char>>)];
    assert(ended.drop_last() =~= Seq::empty());
    if rest.len() == 0 {
        assert(first + rest =~= first);
        assert(lines_heard(first) =~= lines_heard(first) + lines_heard(rest));
    } else {
        lines_are_kept_in_order(first, rest.drop_last(), stream, line);
        assert((first + rest).drop_last() =~= first + rest.drop_last());
        assert(lines_heard(first + rest) =~= lines_heard(first) + lines_heard(rest));
    }
}

/// How a command ended is told in one of three ways, with the status or the code in
/// it as it stands.
pub proof fn ends_are_told_apart(status: String, code: i32)
    ensures
        (CommandExit::Success { status }).spec_message() == "Command exited with status: "@
            + status@,
        (CommandExit::Code { code }).spec_message() == "Command exited with non-zero exit code: "@
            + signed_decimal(code as int),
        CommandExit::Signal.spec_message() == "Command terminated by signal"@,
{
}

/// A line from one stream ends neither, and the end of one stream is not the end of
/// the other.
pub proof fn streams_end_by_themselves(run: RunView, stream: Stream, other: Stream, line: Seq<char>)
    requires
        stream != other,
    ensures
        run.after(stream, Some(line)).stream_ended(stream) == run.stream_ended(stream),
        run.after(stream, Some(line)).stream_ended(other) == run.stream_ended(other),
        run.after(stream, None).stream_ended(stream),
        run.after(stream, None).stream_ended(other) == run.stream_ended(other),
        run.after(stream, None).output == run.output,
        run.ended() <==> run.stream_ended(stream) && run.stream_ended(other),
{
}

/// The view of a run shows every part of it, and nothing has been heard of a fresh one.
pub proof fn run_views_show_every_part(run: CommandRun, command: Seq<Seq<char>>)
    ensures
        run@.command == run.command.deep_view() && run@.output == run.output@,
        run@.stdout_done == run.stdout_done && run@.stderr_done == run.stderr_done,
        RunView::fresh(command).command == command,
        RunView::fresh(command).output.len() == 0,
        !RunView::fresh(command).stdout_done && !RunView::fresh(command).stderr_done,
{
}

} // verus!
