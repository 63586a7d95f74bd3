# ghostlayer

End to end encryption for chat platforms that do not have it, as a library
whose behaviour is stated in `requires` and `ensures` contracts and proved.

- `src/` is the verified library: the `ghl:<kind>:<version>:<payload>` frames
  of invite and message keys, the version 1 payloads and their checks, key
  agreement and message encryption, the friend list and what the popup loads
  and copies. The calls into `base64`, `x25519-dalek`, `chacha20poly1305`,
  `rand_core` and `serde_json` stand behind small trusted wrappers in
  `encoding.rs`, `primitives.rs`, `json.rs` and `text.rs`, each with a doc
  comment that says what its contract claims.
- `tests/` runs the library on concrete values, with the real outside crates.
- `app/` is the unverified edge: the `wasm_bindgen` entry points of the browser
  extension, reading the extension's storage JSON, the clipboard, and the
  `icon-gen` command that resizes a master image with `image`.
