# kwctl

The decisions behind a command line client for Kubewarden policies, written and proved in Verus.

`src/` is the library. It reads a parsed command line into a command, and gives each command a
session: a state machine that says which action comes next and takes in what came of it. The
contracts say which action each stage asks for, what every answer leads to, and which failure ends a
session; the public proof functions say what holds of whole sessions.

| Modules | |
| --- | --- |
| `arg`, `args`, `command`, `settings` | from a parsed command line to a command with its arguments, each judged where it is needed |
| `flags`, `signature`, `verification` | which signatures a policy has to bear |
| `fulcio`, `remote`, `files` | trust roots, sources and registry credentials |
| `pull`, `verify`, `run`, `push`, `inspect`, `digest`, `scaffold` | the sessions |
| `failure`, `output` | what is told to the user |
| `table`, `text` | data structures |

`app/` is the program around it: logging, the command line, files, and the calls into the policy
crates. It carries out the actions that the sessions ask for.

`tests/` runs the library.

Trusted without proof are the calls into `clap` (`src/args.rs`) and `serde_json` (`src/output.rs`);
each is documented where it stands.
