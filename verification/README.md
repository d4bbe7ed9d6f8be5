# hf2

Host side of the HF2 (HID Flashing Format) protocol, verified with Verus.

- `src/codec.rs` — byte order, integer encodings, and the calls into `scroll` and
  `core::str::from_utf8` with their contracts.
- `src/protocol.rs` — commands, responses, packet framing (`xmit_packets`), the
  `Receiver` that reassembles response packets, and the framing round-trip law.
- `src/bininfo.rs`, `src/commands.rs` — what each command sends and how its answer is read.
- `src/error.rs` — the error type.
- `app/` — the HID reads and writes (`hidapi`), and the `Commander` trait.
