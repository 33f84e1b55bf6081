# lsp_main_loop

The decisions of a language server's main loop, verified with Verus.

The loop takes one event at a time: a message of the client, a result of a worker, a change in the
virtual file system, or a library whose index is done. `MainLoop::on_event` says what to do with it,
`MainLoop::end_turn` what is left to do at the end of the turn. The program in `app/` owns the
channels, the thread pool and the analysis, performs these steps, and hands the events back.

- `src/main_loop.rs`: the state of the loop and its turns
- `src/requests.rs`: the requests, their handlers and their dispatch
- `src/notices.rs`: the notifications of the client
- `src/documents.rs`, `src/uris.rs`: the documents that they name, and the URIs that can be read
  without an overflow
- `src/tasks.rs`: what the workers send back
- `src/libraries.rs`: the libraries that wait to be indexed
- `src/updates.rs`: diagnostics and decorations of the open files
- `src/events.rs`, `src/user_messages.rs`, `src/errors.rs`, `src/message.rs`, `src/methods.rs`,
  `src/lsp_error.rs`, `src/decimal.rs`: the smaller parts
- `src/sets.rs`, `src/protocol.rs`: the trusted calls into `rustc_hash`, `serde_json` and
  `lsp_types` with its `url` crate
- `src/laws.rs`: what holds of whole turns and of every series of turns, such as one response per
  request, and three workers that stay free
