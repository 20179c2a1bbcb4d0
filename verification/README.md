# pjdfstest

A POSIX file-system test suite runner. The library under `src/` is verified
with Verus; `app/` is the program around it.

- `src/features.rs`, `src/flags.rs`: the optional file-system features and the
  file flags, with their names and the parsing of those names.
- `src/config.rs`: the configuration model and the guards that decide, from the
  flags a file system offers, whether a test can run.
- `src/path.rs`: paths as Unix byte strings, and how components are joined.
- `src/context.rs`: the context of a test and the planning of file creation:
  random names, default modes, what creating and opening a file amount to on
  each system, the layout of a path of the maximal length, and what the cleanup
  does to each file a test leaves.
- `src/runner.rs`: which test cases are selected, why one is skipped, and the
  tally of outcomes.
- `src/text.rs`: comparison, search, trimming and joining of strings.
- `app/`: argument parsing, loading the configuration file, the system calls
  that create files, switching users, and the loop that runs the test cases.
- `app/tests/`: test cases of the suite (chmod, chown, ftruncate, link, mkdir,
  mknod, open), each registered with `test_case!`.
