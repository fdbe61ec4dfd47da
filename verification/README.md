# faraday

Diagnostics toolkit for Ford vehicles over a CAN adapter (vLinker FS / STN chip):
OBD-II and UDS requests, ISO-TP framing, as-built configuration reading and
writing, and an ECU emulator that answers on a pseudo-terminal.

## Layout

- `src/` — the verified library: Verus proves every function against its
  `requires`/`ensures` contract.
  - `types`, `error`: CAN identifiers, frames, buses, modules, and the error type.
  - `scan`, `text`: character-level parsing and hex/decimal rendering.
  - `transport::isotp`: ISO 15765-2 segmentation and reassembly, with the law that
    reassembling the frames of a message gives the message back.
  - `protocol`: J1979 request builders and reply decoders, UDS services and the
    negative-response table, and the security-access key derivation.
  - `asbuilt`: the block catalogs of the BCM, IPC and PCM, the bit-field decoder
    and the encoder (write-then-read, other bits untouched, idempotence).
  - `commands`: the command flows as state machines from reply to next request
    (as-built read, guarded as-built write, DTC, live data, ECU information).
  - `link`: the adapter's text protocol and a deterministic simulated ECU.
  - `emu`: the emulator's response planning and command parsing, with laws tying
    it to the decoders of `protocol` and `link`.
  - `cli`: argument models, feature lookup and value parsing, the `asbuilt write`,
    `asbuilt restore` and `profile apply` commands as state machines (a write is
    asked for only after a confirmed review and a saved snapshot, never in a dry
    run), profile validation, audit records and output lines.
- `tests/` — tests of the library on concrete values.
- `app/` — the program: argument parsing, serial and pty I/O, async drivers of
  the command flows, persistence (JSON/YAML/JSONL), and the emulator's
  randomised sensor values.
