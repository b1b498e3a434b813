# open_jtalk_engine

The decisions of a Japanese text analyser built on Open JTalk, verified with Verus: opening a
system dictionary, taking a user dictionary into use, and turning text into full-context labels.

* `src/` is the verified library. Each operation is a run: a value that names the call to be
  made next and takes its reply. `src/laws.rs` states what holds of whole runs, and
  `src/sharing.rs` and `src/dictionaries.rs` what holds of runs that share the native resources
  and of the dictionaries in force.
* `tests/` drives the runs with scripted replies.
* `app/` makes the calls: temporary files, locks, threads and the native Open JTalk. Besides the
  crates in `Cargo.toml` it needs `open_jtalk`, the binding to the native library, which is not on
  crates.io.
