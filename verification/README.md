# metropipe

Export a function from one language and call it from another through a
shared-memory channel: a 32-byte header (status word, lock, payload size,
capacity, error code) followed by the payload, and an atomic handshake
(IDLE → CONSUMER_REQ → PROVIDER_RES → IDLE).

The library in `src/` is verified with Verus:

- `protocol` — header offsets, status words, little-endian fields, and the
  laws that a field reads back what was written and that writes leave other
  fields alone.
- `exchange` — the consumer's request as a step function (wait for IDLE and a
  free lock, send, wait for the response or an error, time out), the
  provider's side, payloads bounded by the channel's capacity, and the
  round-trip law of the handshake. Each write checks the lock word, sets it,
  and frees it again; this is stated of one buffer held by one writer, and
  nothing is proved about two processes that race for the lock.
- `text` — character-sequence operations (trim, find, split, words, join,
  decimal numerals) with their specifications.
- `signature` — the signature parsers for Python, Rust, Go, C, JavaScript,
  TypeScript, Ruby, Java and C#.
- `header` — the function prototypes of a C header, as `bind` reads them.
- `types` — type names across languages, field sizes and the payload layout.
- `template`, `export_templates`, `service_templates` — stub templates and
  how they are filled.
- `stub`, `go_stub`, `providers`, `client` — the stubs and providers of
  `export` (every stub sends its arguments as a JSON object; every provider,
  in the source's language, answers with a JSON `result`), and the service
  definition and stubs of `bind` and `connect --gen-stubs`.
- `cli`, `export` — reading the command line and planning the files of `export`.

`app/` is the command-line program: files, shared-memory mapping, the terminal,
the clock and sleeping between the library's steps.
