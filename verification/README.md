# guardian

Guardian supervises AI agents on a workstation. Every action an agent announces
passes through safety rules, risk scoring and a permission step before it may
proceed; risky agents can be frozen and their file changes rolled back.

The library under `src/` is written in Verus. Its functions are verified against
their contracts, except the small trusted wrappers around outside crates (std,
aes-gcm, sha2, nix, uuid, serde_json), marked `#[verifier::external_body]`, whose
contracts are assumed:

- `risk/`: the four risk policies and the engine that combines them by a weighted
  maximum and maps the score to a decision.
- `safety.rs`: user safety rules, matched in order before any scoring.
- `gate.rs`, `tokens.rs`: what happens with a decision, permission tokens and their
  single use.
- `engine.rs`: the pipeline that ties the three together.
- `kill_switch/`: the process tree per agent, freezing and thawing.
- `rollback.rs`: the encrypted snapshot vault's framing and the snapshot records.
- `sensors.rs`, `queries.rs`, `mcp.rs`: the decisions behind the sensors, the
  knowledge-graph queries and the agent-facing tool gateway.

Scores and confidences are fixed-point numbers in ten-thousandths (10000 is 1.0).

`app/` holds the program around the library: the SQLite store, the HTTP/SSE and
stdio gateways, file-system and process watching, and the user prompts.
