# OpenQuest server core

OpenQuest lets blockchain projects ("protocols") run quizzes for their
communities, grade them through a contract and keep a leaderboard.

- `src/` is the verified library (Verus): the quiz, user and protocol models,
  the decisions of the HTTP handlers (authorization, registration gates,
  joining and submitting quizzes, team management, login), the session token
  rules, and the quiz submitter's framing and reading of contract data.
  Calls to the clock, the random source, SHA-256, hex coding, string
  primitives and HTTP status codes go through small trusted wrappers whose
  contracts state what the outside code does.
- `app/` is the server around it: actix-web handlers, the MongoDB store, JWT
  encoding, serde forms of the records (which also carry the floating-point
  reward and expense amounts), and the contract calls.
- `tests/` exercises the library on concrete values.

`app/chain.rs` calls the OpenQuest contracts through the `alloy` crates, which
`Cargo.toml` does not list; `app/` builds once they are added.
