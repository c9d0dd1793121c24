# gmod — verified Lua state conversations

This crate is the Lua state layer of gmod, a library for Garry's Mod binary
modules: `LuaState` over the Lua 5.1 / LuaJIT C API, with proved contracts.

A call into Lua cannot be made from verified code, so each operation is written
as a conversation: `start` returns the first C API call (`ApiCall`); the host
makes it and hands the reply (`Reply`) to `resume`, which returns the next call
or the outcome (`Step`). The contracts state, over a ghost log of the exchanges,
the complete conversations each operation can have and the outcome each gives.

- `src/consts.rs` — the C API's constants.
- `src/api.rs` — calls, replies, their views, and the reply shapes each call has.
- `src/model.rs` — how each call changes the Lua stack (its sequence of values).
- `src/state.rs` — `LuaState`: one method per operation.
- `src/flag.rs`, `src/query.rs`, `src/typename.rs`, `src/dump.rs`,
  `src/errors.rs`, `src/userdata.rs` — the conversations.
- `src/text.rs` — lossy UTF-8 decoding (std's `String::from_utf8_lossy`).
- `src/laws.rs` — proofs about whole conversations (what they do to the stack).
- `app/lib.rs` — the host: the table of C functions, the loop that makes the
  calls, and the calls that need no decision.
- `tests/conversations.rs` — the conversations run against an in-memory stack.
