# juicer

A command-line tool that fetches log files from an FRC robot over SSH, as a Verus-verified
library (`src/`) and a thin program around it (`app/`).

- `src/util/bytes.rs`: byte counts as text (`1.50 kb`), computed exactly on integers with the
  rounding that `f64` and `{:.2}` apply.
- `src/util/frc.rs`: team numbers, their `10.TE.AM.x` addresses, the roboRIO controller.
- `src/profile/`: robot profiles and the SSH login they give.
- `src/input.rs`: finishing a line read at the terminal; yes/no prompts.
- `src/execute.rs`, `src/execute/`: the session (connect, SFTP, list or download), the
  interactive last-log download, and scanning, as state machines: the caller performs the
  work that each step asks for and hands back its outcome.
- `src/juicer.rs`: the run: directories, profile, session.
- `src/text.rs`: the std string and path operations that the library calls, with their contracts.
- `app/`: argument handling, terminal and network work (through `fetchlib`), serde copies.
