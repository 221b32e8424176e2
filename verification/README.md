# hace-uni-loader

The verified core of the HACE universal artifact loader: the seven-stage
pipeline DISCOVER → INGEST → VERIFY → RESOLVE → AUTHORIZE → BIND → HANDOFF,
the sealed-header format, and the choice of the Hacetime RAC endpoint.

- `src/header.rs` — `SealedHeader`, its byte layout and `parse` / `is_valid`.
- `src/error.rs` — `LoaderError` and its messages.
- `src/artifact.rs` — the data of each stage (descriptor, envelope, permit, …).
- `src/rac.rs` — `RacEndpoint`: defaults, choice by transport, WebSocket URL.
- `src/history.rs` — the pipeline's stage order and the in-order history
  that the loader keeps of completed stages.
- `src/loader.rs` — the `HaceUniLoader` trait and the refusing `NativeLoader`.
- `src/pipeline.rs` — the browser loader `UniLoader`, which runs a stage only
  when the stages it depends on have produced their outputs. It never grants
  authority itself: `request_authority` gives the request for Hacetime and
  `record_authority` records Hacetime's answer to it. Verification takes the
  outcomes of the integrity and seal checks and the computed FEH hash.
- `app/lib.rs` — serde forms of the manifest types, a displayable error, and
  the JavaScript bindings (exported on wasm32).
