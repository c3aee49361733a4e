# litertlm-rs

Safe Rust bindings to Google's LiteRT LM C API (`engine.h`), built around a
verified core.

- `src/` — the verified library (Verus): the error type and its messages;
  the checks applied to every C call (NUL-free C strings, NULL handles,
  status codes, negative counts); the decoding of C strings; the plain-value
  models of input chunks and of start/stop token unions; the extraction of
  plain text from message JSON (parsed by serde_json); and the two decisions
  of the streaming protocol (what a chunk reports, what the call returns).
- `app/` — the bindings proper: one type per C object, each method making
  its `litertlm_sys` call and handing what it gets to the library. It needs
  the `litertlm_sys` FFI crate and the native `liblitert-lm` library.
- `tests/` — tests of the library.
