# zxq5chat

The verified core of a small chat service: a Rocket backend with a
real-time messenger and a bridge to a game's chat, and a yew web client.

- `src/` is the library, verified with Verus: request answers of the
  authentication routes and the session guard, session tokens (SHA-256
  through `sha2`), the configuration read from `Deploy.toml` (through
  `toml`), the messenger's table of channels and connections, the bridge's
  messages and socket setup, and the client's routing, forms, message list
  and texts.
- `tests/` runs the library on concrete values.
- `app/` is the program around it: the HTTP and WebSocket routes, the
  database, the Unix socket, and the client's components and hooks.
