use wasmjit_capi::{
    addrs_from_slice, bytes_from_vec, bytes_null, bytes_to_boxed_slice, chain_context_args,
    popped_caller_or_zero, result_from_error, result_from_panic_outcome, validation_result,
    vmctx_memory_result, wasm_bytes_from_binary, wasm_bytes_from_text, wasmjit_bytes_as_slice, wasmjit_bytes_destroy,
    wasmjit_bytes_new, wasmjit_result_err_compile, wasmjit_result_err_internal,
    wasmjit_result_err_link, wasmjit_result_err_trap, wasmjit_result_is_success,
    wasmjit_result_success, wasmjit_slice_t, WasmjitError,
};

fn slice_of(bytes: Vec<u8>) -> wasmjit_slice_t {
    let len = bytes.len() as u32;
    wasmjit_slice_t { data: bytes, len }
}

#[test]
fn null_buffer_is_empty() {
    let b = bytes_null();
    assert_eq!(b.len, 0);
    assert!(b.data.is_empty());
}

#[test]
fn buffer_round_trip_keeps_bytes() {
    let b = bytes_from_vec(vec![7, 0, 255, 3]);
    assert_eq!(b.len, 4);
    let back = bytes_to_boxed_slice(b);
    assert_eq!(&back[..], &[7u8, 0, 255, 3][..]);
}

#[test]
fn empty_vec_gives_empty_buffer() {
    let b = bytes_from_vec(Vec::new());
    assert_eq!(b.len, 0);
    assert_eq!(bytes_to_boxed_slice(b).len(), 0);
}

#[test]
fn new_buffer_is_zeroed() {
    let b = wasmjit_bytes_new(5);
    assert_eq!(b.len, 5);
    assert_eq!(b.data, vec![0u8; 5]);
    wasmjit_bytes_destroy(b);
    assert_eq!(wasmjit_bytes_new(0).len, 0);
}

#[test]
fn slice_views_the_same_bytes() {
    let s = wasmjit_bytes_as_slice(bytes_from_vec(vec![1, 2, 3]));
    assert_eq!(s.len, 3);
    assert_eq!(s.data, vec![1, 2, 3]);
}

#[test]
fn addresses_are_twenty_byte_chunks() {
    let raw: Vec<u8> = (0u8..45).collect();
    let addrs = addrs_from_slice(slice_of(raw.clone()));
    assert_eq!(addrs.len(), 2);
    assert_eq!(&addrs[0][..], &raw[0..20]);
    assert_eq!(&addrs[1][..], &raw[20..40]);
}

#[test]
fn short_address_list_gives_no_address() {
    assert!(addrs_from_slice(slice_of(vec![9; 19])).is_empty());
    assert!(addrs_from_slice(slice_of(Vec::new())).is_empty());
}

#[test]
fn chain_context_args_keep_every_value() {
    let callers: Vec<u8> = (0u8..40).collect();
    let witness: Vec<u8> = (100u8..120).collect();
    let args = chain_context_args(
        7,
        [1; 32],
        1_600_000_000,
        [2; 32],
        slice_of(callers.clone()),
        slice_of(witness.clone()),
        slice_of(vec![5, 6]),
        11,
        12,
        13,
        14,
        15,
    );
    assert_eq!(args.height, 7);
    assert_eq!(args.blockhash, [1; 32]);
    assert_eq!(args.timestamp, 1_600_000_000);
    assert_eq!(args.txhash, [2; 32]);
    assert_eq!(args.callers.concat(), callers);
    assert_eq!(args.callers.len(), 2);
    assert_eq!(args.witness.concat(), witness);
    assert_eq!(args.input, vec![5, 6]);
    assert_eq!(
        (args.exec_step, args.gas_factor, args.gas_left, args.depth_left, args.service_index),
        (11, 12, 13, 14, 15)
    );
}

#[test]
fn popping_from_no_callers_gives_zero_address() {
    assert_eq!(popped_caller_or_zero(None), [0u8; 20]);
    assert_eq!(popped_caller_or_zero(Some([4u8; 20])), [4u8; 20]);
}

#[test]
fn each_error_has_its_kind_and_text() {
    let cases = vec![
        (WasmjitError::Compile("bad code".to_string()), wasmjit_result_err_compile, "bad code"),
        (WasmjitError::Link("no import".to_string()), wasmjit_result_err_link, "no import"),
        (WasmjitError::Internal("oops".to_string()), wasmjit_result_err_internal, "oops"),
        (WasmjitError::Trap("unreachable".to_string()), wasmjit_result_err_trap, "unreachable"),
    ];
    for (error, kind, text) in cases {
        let r = result_from_error(error);
        assert_eq!(r.kind, kind);
        assert_ne!(r.kind, wasmjit_result_success);
        assert_eq!(r.msg.data, text.as_bytes().to_vec());
        assert_eq!(r.msg.len as usize, text.len());
    }
}

#[test]
fn error_text_is_utf8_encoded() {
    let r = result_from_error(WasmjitError::Trap("é".to_string()));
    assert_eq!(r.msg.data, vec![0xc3, 0xa9]);
    assert_eq!(r.msg.len, 2);
}

#[test]
fn outcome_value_gives_success_and_handle() {
    let outcome: Result<Result<u32, WasmjitError>, String> = Ok(Ok(42));
    let (r, v) = result_from_panic_outcome(outcome);
    assert_eq!(r.kind, wasmjit_result_success);
    assert!(wasmjit_result_is_success(&r));
    assert_eq!(r.msg.len, 0);
    assert_eq!(v, Some(42));
}

#[test]
fn outcome_panic_gives_internal_error() {
    let outcome: Result<Result<u32, WasmjitError>, String> = Err("panicked".to_string());
    let (r, v) = result_from_panic_outcome(outcome);
    assert_eq!(r.kind, wasmjit_result_err_internal);
    assert!(!wasmjit_result_is_success(&r));
    assert_eq!(r.msg.data, b"panicked".to_vec());
    assert_eq!(v, None);
}

#[test]
fn outcome_error_gives_its_record() {
    let outcome: Result<Result<u32, WasmjitError>, String> =
        Ok(Err(WasmjitError::Link("missing env.f".to_string())));
    let (r, v) = result_from_panic_outcome(outcome);
    assert_eq!(r.kind, wasmjit_result_err_link);
    assert_eq!(r.msg.data, b"missing env.f".to_vec());
    assert_eq!(v, None);
}

#[test]
fn validation_records() {
    let ok = validation_result(Ok(()));
    assert_eq!(ok.kind, wasmjit_result_success);
    assert_eq!(ok.msg.len, 0);
    let bad = validation_result(Err("invalid magic".to_string()));
    assert_eq!(bad.kind, wasmjit_result_err_compile);
    assert_eq!(bad.msg.data, b"invalid magic".to_vec());
}

#[test]
fn memory_present_gives_its_length() {
    let (r, len) = vmctx_memory_result(Some(65536));
    assert_eq!(r.kind, wasmjit_result_success);
    assert_eq!(r.msg.len, 0);
    assert_eq!(len, Some(65536));
}

#[test]
fn memory_length_keeps_low_bits() {
    if usize::MAX as u64 == u64::MAX {
        let four_gib = 1usize << 32;
        let (_, len) = vmctx_memory_result(Some(four_gib + 5));
        assert_eq!(len, Some(5));
    }
}

#[test]
fn memory_missing_gives_trap() {
    let (r, len) = vmctx_memory_result(None);
    assert_eq!(r.kind, wasmjit_result_err_trap);
    assert_eq!(r.msg.data, b"undefined memory".to_vec());
    assert_eq!(r.msg.len, 16);
    assert_eq!(len, None);
}

#[test]
fn text_module_becomes_binary() {
    let b = wasm_bytes_from_text("(module)").expect("valid module");
    assert_eq!(b.data, vec![0x00, 0x61, 0x73, 0x6d, 0x01, 0x00, 0x00, 0x00]);
    assert_eq!(b.len, 8);
}

#[test]
fn text_module_with_function_encodes_it() {
    let b = wasm_bytes_from_text("(module (func (export \"run\")))").expect("valid module");
    assert_eq!(&b.data[0..4], b"\0asm");
    assert!(b.data.len() > 8);
    assert_eq!(b.len as usize, b.data.len());
}

#[test]
fn invalid_text_module_is_refused() {
    assert!(wasm_bytes_from_text("(module (func (bogus)))").is_none());
    assert!(wasm_bytes_from_text("not a module at all (").is_none());
}

#[test]
fn component_text_is_refused() {
    assert!(wasm_bytes_from_text("(component)").is_none());
    assert!(wasm_bytes_from_text("(component (core module))").is_none());
}

#[test]
fn binary_becomes_buffer() {
    let b = wasm_bytes_from_binary(Some(vec![0x00, 0x61, 0x73, 0x6d])).expect("a module");
    assert_eq!(b.len, 4);
    assert_eq!(b.data, vec![0x00, 0x61, 0x73, 0x6d]);
    assert!(wasm_bytes_from_binary(None).is_none());
    assert_eq!(wasm_bytes_from_binary(Some(Vec::new())).expect("empty binary").len, 0);
}
