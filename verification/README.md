# aqua_backend

Installing tools from the aqua registry: which versions a tool has, where the asset of a version is,
how it is downloaded, verified and unpacked.

- `src/` is the library. It is written in Verus, and every function is verified against its contract.
  What takes the network, files or other programs is a sequence of steps: each step says what is to be
  done outside, and holds the state that goes on with the outcome. The contracts say which step follows
  which, and the public proof functions whose names begin with `law_` say what holds of whole runs,
  whatever comes back from outside.
- `tests/` runs the library on concrete values.
- `app/` carries the steps out for a program that supplies the registry, the network and the files.

What the library takes from other crates without proof stands in `paths.rs` (paths of `std`),
`pattern.rs` (`regex`), `names.rs` (`indexmap`, `itertools`) and, for white space, in `text.rs`.
