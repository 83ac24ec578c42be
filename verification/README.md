# moli_renderer

The verified core of a headless browser renderer and its MCP server: the
identity, ownership and routing decisions that the renderer makes around
V8, written in Verus with their contracts proved.

## Layout

- `src/` — the library.  Its functions are verified, except the small
  `#[verifier::external_body]` wrappers that make one call into std, tokio
  or serde_json each; their contracts are trusted, and each says in its doc
  comment which call it makes and what is claimed of it:
  - `frame_ids` — per-family identity counters of a frame owner;
  - `reflector` — stable wrapper identities for DOM keys, with rekeying;
  - `reflector_laws` — the registry's laws over whole sequences of
    operations;
  - `bridge_identity` — wrapper identities of script-visible DOM objects and
    their rebinding across runtime generations;
  - `document_parser` — the live document parser's input buffer, step
    outcomes, discovery signals and session lifetime;
  - `document_scripts` — main-document task owners, initial script
    acceptance and post-parse work;
  - `layout_snapshot` — the single-slot latest layout cache;
  - `worker_host_bridge` — the Page-owned FIFO of worker host records;
  - `dedicated_workers` — DevTools access to DedicatedWorkers;
  - `service_worker_lane` — service-worker completions and their lane;
  - `webcrypto_tasks` — pending WebCrypto tasks by exact owner;
  - `protocol`, `inspector_outbound`, `inspector_backend` — inspector
    messages, worker outbound routing, pause sessions, unique ids and default
    contexts;
  - `mcp` — MCP request and tool routing, tool and resource tables, key
    events, interactive elements, semantic tree text and message framing.
- `tests/` — executable tests of the library.
- `app/` — the MCP stdio loop, JSON conversion and the awaited DevTools
  plumbing, on top of the library.
