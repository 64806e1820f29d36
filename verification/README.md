# drama

A dramatically minimal actor library, verified with Verus.

An actor receives type-erased messages through a mailbox channel and
commands through a command channel. What its runtime does with each event —
handle a message, stop on `Stop`, fail when a channel is disconnected — is
decided by verified code in `src/`; the asynchronous loops that wait for
those events, spawn runtimes on tokio and await responses are in `app/`.

- `src/actor.rs` — `Actor`, `ActorHandle`, `Recipient`: sending messages and
  commands; a message that cannot be delivered comes back unchanged.
- `src/message.rs` — `Handler`, envelopes that carry a message and its
  response channel, and `MessageRequest`, the pending response of `send_wait`.
- `src/runtime.rs` — the default runtime's reaction to each event.
- `src/relay.rs` — relay actors fed by a stream, forwarding their responses.
- `src/ws.rs` — the bounded queue of websocket messages being handled.
- `app/` — spawning runtimes, their event loops, and awaiting responses.

Handlers are synchronous: `Handler::handle` and `Relay::process` are plain
methods, so that the runtimes calling them can be verified.
