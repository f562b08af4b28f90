# wasmjit_capi

The C interface of a WebAssembly JIT for smart contracts, split in two.

- `src/` is a Verus library. It models what crosses the C boundary as plain
  values and verifies the decisions made on them:
  - `buffer`: owned byte buffers and borrowed byte views with a `u32` length;
  - `chain`: splitting flat address lists into twenty-byte addresses and
    gathering the arguments of a chain context;
  - `result`: the result record (kind and message) that each engine outcome
    becomes;
  - `text_module`: turning a WebAssembly text module into its binary form;
  - `handles`: the opaque handle types that C code holds pointers to.
- `app/` holds the exported `extern "C"` functions: raw-pointer conversion,
  calls into the engine crates, file reading and printing.
- `tests/` runs the library on concrete values.
