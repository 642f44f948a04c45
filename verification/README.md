# reasoner

A coding assistant for the terminal, with a core that is verified by Verus.

A request is put to a planning model together with the files, knowledge and
command outputs that were collected for it; an editing model then carries the plan
out through tool calls, and the change is recorded and described with `jj`.

- `src/` is the library: prompts, the choice of models, the tool-calling loop, cache
  points, the interpreter's commands and its state. Nothing in it does I/O: it says
  what is to be done next (`job::Job`) and goes on with what came of it
  (`job::Outcome`, `repl::Repl::resume`).
  `laws` states what holds across inputs and jobs.
- `app/` is the program around it: the terminal, files, processes, `jj` and the
  models.
- `tests/` run the library on concrete values.
