//! Byte buffers that cross the C boundary.
//!
//! An owned buffer (`wasmjit_bytes_t`) and a borrowed view (`wasmjit_slice_t`)
//! both pair the bytes with a `u32` length field, the length that C code sees.
//! A value is well formed when that field counts its bytes; lengths beyond
//! `u32::MAX` cannot be described to C and are therefore never produced.
use vstd::prelude::*;

verus! {

/// An owned byte buffer: `len` is the number of bytes in `data`.
pub struct wasmjit_bytes_t {
    pub data: Vec<u8>,
    pub len: u32,
}

/// A borrowed view of bytes: `len` is the number of bytes in `data`.
pub struct wasmjit_slice_t {
    pub data: Vec<u8>,
    pub len: u32,
}

impl View for wasmjit_bytes_t {
    type V = Seq<u8>;

    open spec fn view(&self) -> Seq<u8> {
        self.data@
    }
}

impl View for wasmjit_slice_t {
    type V = Seq<u8>;

    open spec fn view(&self) -> Seq<u8> {
        self.data@
    }
}

impl wasmjit_bytes_t {
    /// The length field counts the bytes of the buffer.
    pub open spec fn wf(&self) -> bool {
        self.data@.len() == self.len as int
    }
}

impl wasmjit_slice_t {
    /// The length field counts the bytes of the view.
    pub open spec fn wf(&self) -> bool {
        self.data@.len() == self.len as int
    }
}

/// The empty buffer, which C code receives as a null pointer of length zero.
pub fn bytes_null() -> (b: wasmjit_bytes_t)
    ensures
        b.wf(),
        b.len == 0,
        b@ == Seq::<u8>::empty(),
{
    wasmjit_bytes_t { data: Vec::new(), len: 0 }
}

/// Hands the bytes of `data` over as an owned buffer.
///
/// The length field of the buffer is a `u32`, so `data` must fit in it.
pub fn bytes_from_vec(data: Vec<u8>) -> (b: wasmjit_bytes_t)
    requires
        data@.len() <= u32::MAX,
    ensures
        b.wf(),
        b.len == data@.len(),
        b@ == data@,
{
    let len = data.len() as u32;
    wasmjit_bytes_t { data, len }
}

/// `Vec::into_boxed_slice`: the boxed slice holds the same bytes, in order.
#[verifier::external_body]
fn vec_into_boxed_slice(v: Vec<u8>) -> (b: Box<[u8]>)
    ensures
        b@ == v@,
{
    v.into_boxed_slice()
}

/// Takes an owned buffer back as a boxed slice of its bytes.
pub fn bytes_to_boxed_slice(bytes: wasmjit_bytes_t) -> (b: Box<[u8]>)
    requires
        bytes.wf(),
    ensures
        b@ == bytes@,
        b@.len() == bytes.len,
{
    vec_into_boxed_slice(bytes.data)
}

/// A new buffer of `len` zero bytes.
pub fn wasmjit_bytes_new(len: u32) -> (b: wasmjit_bytes_t)
    ensures
        b.wf(),
        b.len == len,
        b@ == Seq::new(len as nat, |i: int| 0u8),
{
    let data: Vec<u8> = vec![0u8; len as usize];
    proof {
        assert forall|i: int| 0 <= i < len implies data@[i] == 0u8 by {
            assert(cloned(0u8, data@[i]));
        }
    }
    let b = bytes_from_vec(data);
    assert(b@ =~= Seq::new(len as nat, |i: int| 0u8));
    b
}

/// A view of the bytes of an owned buffer.
pub fn wasmjit_bytes_as_slice(bytes: wasmjit_bytes_t) -> (s: wasmjit_slice_t)
    ensures
        s@ == bytes@,
        s.len == bytes.len,
{
    wasmjit_slice_t { data: bytes.data, len: bytes.len }
}

/// Releases an owned buffer.
pub fn wasmjit_bytes_destroy(bytes: wasmjit_bytes_t)
    requires
        bytes.wf(),
{
    let _released = bytes_to_boxed_slice(bytes);
}

} // verus!
