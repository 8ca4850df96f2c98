# mxatools

A tool that installs, logs in to, backs up, restores, lists, configures and
removes Linux distributions running under proot on Termux.

- `src/` is the verified library (Verus): the command-line plan, paths,
  install and login decisions, the login command line, the first-run
  script, archiver commands, configuration edits and the JSON lookups, each
  with its contract, and the laws that relate them.
- `app/` is the program around it: argument parsing with clap, files,
  processes, downloads with curl, and logging with flexi_logger.
- `tests/` runs the library on concrete values.
