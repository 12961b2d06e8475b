# aivyx_server

The decision logic of the aivyx HTTP gateway, written in Verus and proved
against its contracts.

- `src/` is the verified library: authentication and its failure limits,
  tenant API-key resolution, trace context, rate-limit tiers, the session
  cache, scheduling, backups, channels (Telegram chunking, per-user limits),
  the WebSocket and voice protocols, A2A task mapping, webhook signatures,
  SSO role mapping, the request and response types and checks of the
  routes, and the order of steps of the chat, audio-chat, WebSocket,
  voice and A2A-stream handlers as step functions.
  Calls into `sha2`, `hmac`, `subtle`, `hex`, `base64`, `uuid`, `chrono` and
  `croner` stand behind small trusted wrappers whose contracts say what the
  library relies on.
- `app/` is ordinary Rust around it: axum middleware, JSON bodies, backup
  archive I/O with `tar`/`flate2`, governor rate limiters and the chaos
  fault-injection layer. The route handlers themselves, the router and the
  audit log are not here: they run on the aivyx agent, store and audit
  crates, which are not dependencies of this crate.
- `tests/` exercises the library on concrete values.
