//! Result records returned to C code.
//!
//! Each engine operation ends in a record with a kind (success or one of four
//! failure kinds) and a message buffer: empty on success, the UTF-8 text of
//! the error otherwise. This module decides, for every outcome of an engine
//! operation, which record C code receives.
use vstd::prelude::*;
use vstd::string::StrSliceExecFns;
use vstd::utf8::encode_utf8;
use crate::buffer::{bytes_from_vec, bytes_null, wasmjit_bytes_t};

verus! {

/// The kind of a result record.
pub type wasmjit_result_kind = u32;

/// The operation succeeded.
pub const wasmjit_result_success: wasmjit_result_kind = 0;

/// The engine failed internally, for instance by panicking.
pub const wasmjit_result_err_internal: wasmjit_result_kind = 1;

/// The module could not be compiled or validated.
pub const wasmjit_result_err_compile: wasmjit_result_kind = 2;

/// The module's imports could not be linked.
pub const wasmjit_result_err_link: wasmjit_result_kind = 3;

/// Execution trapped.
pub const wasmjit_result_err_trap: wasmjit_result_kind = 4;

/// A result record: its kind and its message.
pub struct wasmjit_result_t {
    pub kind: wasmjit_result_kind,
    pub msg: wasmjit_bytes_t,
}

/// An error of the engine, with its text.
pub enum WasmjitError {
    Compile(String),
    Link(String),
    Internal(String),
    Trap(String),
}

/// The result kind that reports `e`.
pub open spec fn error_kind(e: WasmjitError) -> wasmjit_result_kind {
    match e {
        WasmjitError::Compile(_) => wasmjit_result_err_compile,
        WasmjitError::Link(_) => wasmjit_result_err_link,
        WasmjitError::Internal(_) => wasmjit_result_err_internal,
        WasmjitError::Trap(_) => wasmjit_result_err_trap,
    }
}

/// The text carried by `e`.
pub open spec fn error_text(e: WasmjitError) -> Seq<char> {
    match e {
        WasmjitError::Compile(s) => s@,
        WasmjitError::Link(s) => s@,
        WasmjitError::Internal(s) => s@,
        WasmjitError::Trap(s) => s@,
    }
}

/// The message bytes of a text: its UTF-8 encoding.
pub open spec fn message_of(text: Seq<char>) -> Seq<u8> {
    encode_utf8(text)
}

/// A text whose message fits the `u32` length of a buffer.
pub open spec fn message_fits(text: Seq<char>) -> bool {
    message_of(text).len() <= u32::MAX
}

/// The message of a failed access to the memory of an instance.
pub open spec fn undefined_memory_message() -> Seq<u8> {
    message_of("undefined memory"@)
}

/// The message buffer that carries `text`.
fn message_bytes(text: String) -> (b: wasmjit_bytes_t)
    requires
        message_fits(text@),
    ensures
        b.wf(),
        b@ == message_of(text@),
{
    bytes_from_vec(text.as_str().as_bytes_vec())
}

/// The record of a successful operation: success with an empty message.
fn success_result() -> (r: wasmjit_result_t)
    ensures
        r.kind == wasmjit_result_success,
        r.msg.wf(),
        r.msg@ == Seq::<u8>::empty(),
{
    wasmjit_result_t { kind: wasmjit_result_success, msg: bytes_null() }
}

/// The record that reports an engine error: the kind of the error and its
/// text as message.
pub fn result_from_error(error: WasmjitError) -> (r: wasmjit_result_t)
    requires
        message_fits(error_text(error)),
    ensures
        r.kind == error_kind(error),
        r.msg.wf(),
        r.msg@ == message_of(error_text(error)),
        error matches WasmjitError::Compile(t) ==> r.kind == wasmjit_result_err_compile && r.msg@
            == message_of(t@),
        error matches WasmjitError::Link(t) ==> r.kind == wasmjit_result_err_link && r.msg@
            == message_of(t@),
        error matches WasmjitError::Internal(t) ==> r.kind == wasmjit_result_err_internal
            && r.msg@ == message_of(t@),
        error matches WasmjitError::Trap(t) ==> r.kind == wasmjit_result_err_trap && r.msg@
            == message_of(t@),
{
    match error {
        WasmjitError::Compile(comp) => wasmjit_result_t {
            kind: wasmjit_result_err_compile,
            msg: message_bytes(comp),
        },
        WasmjitError::Link(link) => wasmjit_result_t {
            kind: wasmjit_result_err_link,
            msg: message_bytes(link),
        },
        WasmjitError::Internal(intern) => wasmjit_result_t {
            kind: wasmjit_result_err_internal,
            msg: message_bytes(intern),
        },
        WasmjitError::Trap(trap) => wasmjit_result_t {
            kind: wasmjit_result_err_trap,
            msg: message_bytes(trap),
        },
    }
}

/// The messages of an operation's outcome fit a buffer.
pub open spec fn outcome_fits<T>(outcome: Result<Result<T, WasmjitError>, String>) -> bool {
    match outcome {
        Err(panic_text) => message_fits(panic_text@),
        Ok(Ok(_)) => true,
        Ok(Err(e)) => message_fits(error_text(e)),
    }
}

/// The result kind of an operation's outcome.
pub open spec fn outcome_kind<T>(outcome: Result<Result<T, WasmjitError>, String>) -> wasmjit_result_kind {
    match outcome {
        Err(_) => wasmjit_result_err_internal,
        Ok(Ok(_)) => wasmjit_result_success,
        Ok(Err(e)) => error_kind(e),
    }
}

/// The message of an operation's outcome.
pub open spec fn outcome_message<T>(outcome: Result<Result<T, WasmjitError>, String>) -> Seq<u8> {
    match outcome {
        Err(panic_text) => message_of(panic_text@),
        Ok(Ok(_)) => Seq::empty(),
        Ok(Err(e)) => message_of(error_text(e)),
    }
}

/// Decides what an engine operation (compiling, instantiating or invoking)
/// hands back, given its outcome: `Err` when the engine panicked, with the
/// panic's text; otherwise the operation's own result.
///
/// A panic becomes an internal error, an engine error the record of that
/// error, and a value a success record together with the value, which C
/// code then receives as a handle.
pub fn result_from_panic_outcome<T>(outcome: Result<Result<T, WasmjitError>, String>) -> (r: (
    wasmjit_result_t,
    Option<T>,
))
    requires
        outcome_fits(outcome),
    ensures
        r.0.kind == outcome_kind(outcome),
        r.0.msg.wf(),
        r.0.msg@ == outcome_message(outcome),
        r.1 == (match outcome {
            Ok(Ok(v)) => Some(v),
            _ => None,
        }),
        r.0.kind == wasmjit_result_success <==> r.1 is Some,
        outcome matches Err(t) ==> r.0.kind == wasmjit_result_err_internal && r.0.msg@
            == message_of(t@),
        outcome matches Ok(Ok(_)) ==> r.0.kind == wasmjit_result_success && r.0.msg@ == Seq::<
            u8,
        >::empty(),
        outcome matches Ok(Err(e)) ==> r.0.kind == error_kind(e) && r.0.msg@ == message_of(
            error_text(e),
        ),
        outcome matches Ok(Err(WasmjitError::Compile(t))) ==> r.0.kind
            == wasmjit_result_err_compile && r.0.msg@ == message_of(t@),
        outcome matches Ok(Err(WasmjitError::Link(t))) ==> r.0.kind == wasmjit_result_err_link
            && r.0.msg@ == message_of(t@),
        outcome matches Ok(Err(WasmjitError::Internal(t))) ==> r.0.kind
            == wasmjit_result_err_internal && r.0.msg@ == message_of(t@),
        outcome matches Ok(Err(WasmjitError::Trap(t))) ==> r.0.kind == wasmjit_result_err_trap
            && r.0.msg@ == message_of(t@),
{
    match outcome {
        Err(panic_text) => (
            wasmjit_result_t { kind: wasmjit_result_err_internal, msg: message_bytes(panic_text) },
            None,
        ),
        Ok(Ok(v)) => (success_result(), Some(v)),
        Ok(Err(e)) => (result_from_error(e), None),
    }
}

/// The record of a validation: success when the module is valid, otherwise a
/// compile error with the validator's text.
pub fn validation_result(outcome: Result<(), String>) -> (r: wasmjit_result_t)
    requires
        outcome matches Err(text) ==> message_fits(text@),
    ensures
        r.msg.wf(),
        outcome is Ok ==> r.kind == wasmjit_result_success && r.msg@ == Seq::<u8>::empty(),
        outcome matches Err(text) ==> r.kind == wasmjit_result_err_compile && r.msg@
            == message_of(text@),
{
    match outcome {
        Ok(_) => success_result(),
        Err(text) => wasmjit_result_t { kind: wasmjit_result_err_compile, msg: message_bytes(text) },
    }
}

/// Decides what a request for the memory of an instance hands back, given
/// the length of that memory, or `None` when the instance has none.
///
/// With a memory the record is a success, and the view C code receives gets
/// the memory's length as its `u32` length field (which, like any `as u32`,
/// keeps the low 32 bits); without one the record is a trap.
pub fn vmctx_memory_result(memory_len: Option<usize>) -> (r: (wasmjit_result_t, Option<u32>))
    ensures
        r.0.msg.wf(),
        memory_len matches Some(n) ==> r.0.kind == wasmjit_result_success && r.0.msg@ == Seq::<
            u8,
        >::empty() && r.1 == Some(n as u32),
        memory_len is None ==> r.0.kind == wasmjit_result_err_trap && r.0.msg@
            == undefined_memory_message() && r.1 is None,
{
    match memory_len {
        Some(n) => (success_result(), Some(n as u32)),
        None => {
            let text = "undefined memory";
            proof {
                reveal_strlit("undefined memory");
            }
            let bytes = text.as_bytes_vec();
            assert(bytes@.len() <= u32::MAX) by {
                broadcast use vstd::string::is_ascii_spec_bytes;
                assert(vstd::string::is_ascii(text));
            }
            (wasmjit_result_t { kind: wasmjit_result_err_trap, msg: bytes_from_vec(bytes) }, None)
        },
    }
}

/// Whether a record reports success.
pub fn wasmjit_result_is_success(r: &wasmjit_result_t) -> (b: bool)
    ensures
        b == (r.kind == wasmjit_result_success),
{
    r.kind == wasmjit_result_success
}

/// No engine error is reported as a success, and the four errors are told
/// apart by their kinds.
pub proof fn lemma_error_kinds(e1: WasmjitError, e2: WasmjitError)
    ensures
        error_kind(e1) != wasmjit_result_success,
        error_kind(e1) == error_kind(e2) <==> (e1 is Compile && e2 is Compile) || (e1 is Link
            && e2 is Link) || (e1 is Internal && e2 is Internal) || (e1 is Trap && e2 is Trap),
{
}

/// Each engine error is reported under its own kind: a compile error as a
/// compile error, a link error as a link error, an internal error as an
/// internal error and a trap as a trap, whatever its text.
pub proof fn lemma_error_kind_per_variant(text: String)
    ensures
        error_kind(WasmjitError::Compile(text)) == wasmjit_result_err_compile,
        error_kind(WasmjitError::Link(text)) == wasmjit_result_err_link,
        error_kind(WasmjitError::Internal(text)) == wasmjit_result_err_internal,
        error_kind(WasmjitError::Trap(text)) == wasmjit_result_err_trap,
        error_text(WasmjitError::Compile(text)) == text@,
        error_text(WasmjitError::Link(text)) == text@,
        error_text(WasmjitError::Internal(text)) == text@,
        error_text(WasmjitError::Trap(text)) == text@,
{
}

/// An engine operation that ends in an engine error is reported exactly as
/// that error on its own is: same kind, same message, and no value. Only a
/// caught panic becomes an internal error regardless of its text, and only a
/// value becomes a success.
pub proof fn lemma_outcome_reports_its_error<T>(e: WasmjitError, panic_text: String, v: T)
    ensures
        outcome_kind::<T>(Ok(Err(e))) == error_kind(e),
        outcome_message::<T>(Ok(Err(e))) == message_of(error_text(e)),
        outcome_kind::<T>(Ok(Err(e))) != wasmjit_result_success,
        outcome_kind::<T>(Err(panic_text)) == wasmjit_result_err_internal,
        outcome_message::<T>(Err(panic_text)) == message_of(panic_text@),
        outcome_kind::<T>(Ok(Ok(v))) == wasmjit_result_success,
        outcome_message::<T>(Ok(Ok(v))) == Seq::<u8>::empty(),
        e is Trap ==> outcome_kind::<T>(Ok(Err(e))) == wasmjit_result_err_trap,
        e is Compile ==> outcome_kind::<T>(Ok(Err(e))) == wasmjit_result_err_compile,
        e is Link ==> outcome_kind::<T>(Ok(Err(e))) == wasmjit_result_err_link,
        e is Internal ==> outcome_kind::<T>(Ok(Err(e))) == wasmjit_result_err_internal,
{
}

} // verus!
