//! WebAssembly text modules.
//!
//! Test programs give modules in the text format; this module turns such a
//! text into the binary module that the engine compiles.
use vstd::prelude::*;
use crate::buffer::{bytes_from_vec, wasmjit_bytes_t};

verus! {

/// The binary encoding of the WebAssembly core module written in the text
/// format as `text`, or `None` when `text` is not a valid core module (a
/// component text is none).
pub uninterp spec fn wat_binary(text: Seq<char>) -> Option<Seq<u8>>;

/// Parses `text` with `wast::parser::parse::<wast::Wat>` over a
/// `wast::parser::ParseBuffer` and encodes the module with
/// `wast::Wat::encode`, the `wast` crate's way of turning a text module into
/// its binary form. `wast` is built without its component model, and a text
/// that still parses as a component gives `None`, so only core modules come
/// out; their encoding depends on the text alone.
///
/// Claimed: the bytes returned are `wat_binary(text@)`, and `None` comes back
/// exactly when that is `None` (any of the three steps failing, or a
/// component).
#[verifier::external_body]
fn wat_to_binary(text: &str) -> (r: Option<Vec<u8>>)
    ensures
        match r {
            Some(b) => wat_binary(text@) == Some(b@),
            None => wat_binary(text@) is None,
        },
{
    let buf = wast::parser::ParseBuffer::new(text).ok()?;
    let mut wat = wast::parser::parse::<wast::Wat>(&buf).ok()?;
    match &wat {
        wast::Wat::Module(_) => wat.encode().ok(),
        wast::Wat::Component(_) => None,
    }
}

/// A binary module as an owned buffer: `None` when there is no module, or
/// when it is too long for the `u32` length of a buffer.
pub fn wasm_bytes_from_binary(wasm: Option<Vec<u8>>) -> (r: Option<wasmjit_bytes_t>)
    ensures
        match wasm {
            Some(b) => if b@.len() <= u32::MAX {
                r matches Some(x) && x.wf() && x@ == b@
            } else {
                r is None
            },
            None => r is None,
        },
{
    match wasm {
        Some(wasm) => {
            if wasm.len() <= 0xffff_ffff {
                Some(bytes_from_vec(wasm))
            } else {
                None
            }
        },
        None => None,
    }
}

/// The binary module that a WebAssembly text module encodes, as an owned
/// buffer.
///
/// `None` when the text is not a valid core module, or when its binary is too
/// long for the `u32` length of a buffer.
pub fn wasm_bytes_from_text(text: &str) -> (r: Option<wasmjit_bytes_t>)
    ensures
        match wat_binary(text@) {
            Some(b) => if b.len() <= u32::MAX {
                r matches Some(x) && x.wf() && x@ == b
            } else {
                r is None
            },
            None => r is None,
        },
{
    wasm_bytes_from_binary(wat_to_binary(text))
}

} // verus!
