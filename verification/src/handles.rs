//! Opaque handle types of the C interface.
//!
//! Values of these types are never built on the Rust side: C code only holds
//! pointers to them, which stand for engine objects (resolvers, instances,
//! machine contexts, compiled modules and chain contexts).
use vstd::prelude::*;

verus! {

/// Handle of an import resolver.
pub struct wasmjit_resolver_t {
    _unused: [u8; 0],
}

/// Handle of an instantiated module.
pub struct wasmjit_instance_t {
    _unused: [u8; 0],
}

/// Handle of the machine context of a running instance.
pub struct wasmjit_vmctx_t {
    _unused: [u8; 0],
}

/// Handle of a compiled module.
pub struct wasmjit_module_t {
    _unused: [u8; 0],
}

/// Handle of a chain context.
pub struct wasmjit_chain_context_t {
    _unused: [u8; 0],
}

} // verus!
