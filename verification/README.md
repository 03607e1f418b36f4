# selfie

A package manager that installs packages described by small YAML package
files, in dependency order, for a chosen environment.

- `src/` is the library, written and proved with Verus: the package model and
  its validation, the dependency graph and the resolution of a package's
  dependencies through a package repository (a resolved list puts each
  dependency before the packages that need it and holds only packages the
  repository answered, reached from the requested one; an error is traced to
  the repository's answers; where the repository names its packages as asked,
  the requested package comes last), the installation state machine and the run that installs a package after its
  dependencies, the configuration and its checks, the state of the progress bars, and the
  text the program shows. Calls into outside crates (`console`, `regex`, `url`, `shellexpand`,
  `num_cpus`) and a few std formatting functions sit behind small trusted
  functions in `bindings.rs`, `styling.rs`, `time.rs`, `text.rs` and
  `command.rs`, each with a doc comment saying what is assumed of it.
- `tests/` runs the library on concrete values.
- `app/` is the command line: argument parsing with `clap`, reading the
  configuration and package files with `serde_yaml`, the real file system,
  running commands with the shell, and progress bars with `indicatif`.
