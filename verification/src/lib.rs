//! A C-facing byte-buffer and result layer around a WebAssembly JIT.
//!
//! The library holds the data that crosses the C boundary (owned byte
//! buffers, borrowed byte views, result records, chain-context arguments)
//! as plain values, and verifies every decision made on them: how buffers
//! are built and taken apart, how raw address lists are split into
//! twenty-byte addresses, and which result record each engine outcome
//! becomes.
#![allow(non_camel_case_types, non_upper_case_globals)]

pub mod buffer;
pub mod chain;
pub mod handles;
pub mod result;
pub mod text_module;

pub use buffer::{
    bytes_from_vec, bytes_null, bytes_to_boxed_slice, wasmjit_bytes_as_slice,
    wasmjit_bytes_destroy, wasmjit_bytes_new, wasmjit_bytes_t, wasmjit_slice_t,
};
pub use chain::{
    addrs_from_slice, address_bytes, address_chunks, address_t, chain_context_args,
    h256_t, lemma_address_chunks_flatten, popped_caller_or_zero, ChainContextArgs,
};
pub use handles::{
    wasmjit_chain_context_t, wasmjit_instance_t, wasmjit_module_t, wasmjit_resolver_t,
    wasmjit_vmctx_t,
};
pub use result::{
    error_kind, error_text, lemma_error_kind_per_variant, lemma_error_kinds,
    lemma_outcome_reports_its_error, message_fits, message_of, outcome_fits,
    outcome_kind, outcome_message, result_from_error, result_from_panic_outcome,
    undefined_memory_message, validation_result, vmctx_memory_result, wasmjit_result_err_compile,
    wasmjit_result_err_internal, wasmjit_result_err_link, wasmjit_result_err_trap,
    wasmjit_result_is_success, wasmjit_result_kind, wasmjit_result_success, wasmjit_result_t,
    WasmjitError,
};
pub use text_module::{wasm_bytes_from_binary, wasm_bytes_from_text, wat_binary};
