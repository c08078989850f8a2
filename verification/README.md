# amps_rust_ffi

Rust bindings for the AMPS (Advanced Message Processing System) C++ client,
through its C wrapper layer (`amps_ffi`).

- `src/` is the verified library: C-string conversion of call arguments, the
  error record of the C layer and its conversion to `AmpsError`, the result of
  each call, the display text of errors, the `Message` accessors, and the
  subscription records and options, and the chat's settings, filter and
  message lines.
- `app/` holds the `Client`, which owns the C layer's handle and makes the
  calls (declared in `app/ffi.rs`), plus the example programs and the chat's
  terminal loop; `app/main.rs` runs the examples, or the chat with `chat`.
- `tests/` runs the library on concrete values.
