# srvcs-conevolume

The cone-volume orchestrator of the srvcs distributed standard library, as a verified
library. `POST /` computes `V = (1/3) * pi * r^2 * height` by composing three float
primitives (`srvcs-pi`, `srvcs-floatmultiply`, `srvcs-floatdivide`); the service owns the
control flow and does no arithmetic of its own.

Layout:

- `src/` — the library, verified with Verus.
  - `identity.rs` — the service identity reported by `GET /`.
  - `dependency.rs` — the primitives and their configured endpoints.
  - `json.rs` — framing of the JSON bodies the service sends.
  - `reply.rs` — the replies: `200`, forwarded `422`, `500`, `503`.
  - `evaluate.rs` — the evaluation as a step function: from its progress and the answer to
    the pending call, to the next call or the final reply; and its model.
  - `openapi.rs` — the OpenAPI document.
  - `laws.rs` — properties of whole evaluations, proved over the model.
- `app/` — the axum handlers and the HTTP client that performs the calls the library asks for.
- `tests/` — the test suite, run against the compiled library.
