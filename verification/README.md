# coding_agent

A terminal coding agent: the user types a request, a language model answers,
and it may ask for tools (read a file, write a file, run a shell command) whose
results go back to it, for at most six requests per run.

- `src/` is the verified library (Verus):
  - `interface.rs`: the input line and its cursor, and what each key press does;
  - `agent_responses.rs`: the shared conversation, the decisions of the agent
    loop, and what the message panel shows;
  - `tools/`: what a tool call asks for, the answer it gets, which shell
    commands may run and the text a failed command answers with;
  - `text.rs`: texts as character sequences, decimal notation, and UTF-8 lemmas.
- `app/` is the program around it: the terminal, the network, the file system,
  the shell and the tasks.
- `tests/` runs the library on concrete values.
