# nemo_relay

Verified core of the relay's request handling, written in Verus.

- `src/json.rs`: the JSON document model that detection reads, with key lookup
  and a deep copy proved to preserve the document.
- `src/surface.rs`: provider-surface detection of raw request and response
  bodies and their best-effort normalization, with the laws of detection
  (priority order, the provider hint, single-match responses, key-only reads).
- `src/logging.rs`: the drop-notice rate limiter and the decisions of the
  logging runtime around the process-global `log` proxy.
- `src/plugin.rs`: the slot of the PII-redaction local backend provider.
- `src/ffi_status.rs`: the pointer checks of the C scope-stack interface.
- `app/`: unverified glue: `serde_json` conversion, the spdlog proxy wiring,
  and the locked provider slot.
