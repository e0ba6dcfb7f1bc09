# deno_raw_http

Request handling for an HTTP server that is embedded in a script runtime, written in
[Verus](https://github.com/verus-lang/verus): every function of the library has a contract,
and every contract is proved but those of the calls into other crates and std, which are
declared and believed.

- `src/` is the library. It holds no socket and awaits no future; it is told what happened
  and answers what to do.
  - `handoff`: a channel for one value at a time between two tasks.
  - `raw`: network streams and listeners by kind and address, and how one is moved out of a
    table of resources and back.
  - `vfs`: file system operations, handles, and the steps of a POSIX file system.
  - `http`: the table of requests in flight (`pair`), what a request says (`request`,
    `headers`, `text`), the bodies (`body`, `response`), the operations of a handler (`ops`),
    and the server around them (`callback`, `serve`).
- `tests/` runs the library on concrete values.
- `app/` is the runtime around it: sockets, futures, the resource table, the script engine.

Those declarations stand in `http/chunk.rs`, `http/channels.rs`, `http/headers.rs`,
`http/text.rs`, `http/pair.rs` and `vfs.rs`. Each names the function it speaks of and says what
is claimed of it.

The properties that relate several functions are the proof functions whose names begin with
`law_`.
