//! Arguments of a chain context.
//!
//! C code describes the callers and witnesses of a transaction as flat byte
//! strings of concatenated twenty-byte addresses. This module splits them
//! into addresses and gathers every argument of a new chain context as plain
//! values.
use vstd::prelude::*;
use crate::buffer::wasmjit_slice_t;

verus! {

/// A 256-bit hash.
pub type h256_t = [u8; 32];

/// A twenty-byte account address.
pub type address_t = [u8; 20];

/// The twenty-byte chunks of `s`, in order; bytes after the last whole chunk
/// belong to no chunk.
pub open spec fn address_chunks(s: Seq<u8>) -> Seq<Seq<u8>> {
    Seq::new(s.len() / 20, |i: int| s.subrange(20 * i, 20 * i + 20))
}

/// The bytes of each address of `addrs`, in order.
pub open spec fn address_bytes(addrs: Seq<address_t>) -> Seq<Seq<u8>> {
    addrs.map_values(|a: address_t| a@)
}

/// Splits a flat list of addresses into its twenty-byte addresses.
///
/// Trailing bytes that do not make a whole address are dropped.
pub fn addrs_from_slice(callers: wasmjit_slice_t) -> (addrs: Vec<address_t>)
    requires
        callers.wf(),
    ensures
        address_bytes(addrs@) == address_chunks(callers@),
{
    let buf = callers.data;
    let n = buf.len() / 20;
    let mut addrs: Vec<address_t> = Vec::with_capacity(n);
    let mut i: usize = 0;
    while i < n
        invariant
            n == buf@.len() / 20,
            buf@.len() == buf.len(),
            i <= n,
            addrs@.len() == i,
            forall|k: int| 0 <= k < i ==> #[trigger] addrs@[k]@ == buf@.subrange(20 * k, 20 * k + 20),
        decreases n - i,
    {
        assert(20 * i + 20 <= buf@.len()) by (nonlinear_arith)
            requires
                i < n,
                n == buf@.len() / 20,
        ;
        let base: usize = 20 * i;
        let mut caller: address_t = [0u8; 20];
        let mut j: usize = 0;
        while j < 20
            invariant
                j <= 20,
                base + 20 <= buf@.len(),
                buf@.len() == buf.len(),
                forall|t: int| 0 <= t < j ==> #[trigger] caller@[t] == buf@[base + t],
            decreases 20 - j,
        {
            caller[j] = buf[base + j];
            j += 1;
        }
        assert(caller@ =~= buf@.subrange(base as int, base + 20));
        addrs.push(caller);
        i += 1;
    }
    assert(address_bytes(addrs@) =~= address_chunks(buf@));
    addrs
}

/// When the length of `s` is a multiple of twenty, its address chunks put
/// back together give `s` again: no byte is lost, added or moved.
pub proof fn lemma_address_chunks_flatten(s: Seq<u8>)
    requires
        s.len() % 20 == 0,
    ensures
        address_chunks(s).flatten() == s,
    decreases s.len(),
{
    if s.len() == 0 {
        assert(address_chunks(s) =~= Seq::<Seq<u8>>::empty());
    } else {
        let rest = s.subrange(20, s.len() as int);
        lemma_address_chunks_flatten(rest);
        assert(rest.len() / 20 == s.len() / 20 - 1) by (nonlinear_arith)
            requires
                rest.len() == s.len() - 20,
                s.len() >= 20,
        ;
        assert forall|i: int| 0 <= i < rest.len() / 20 implies #[trigger] address_chunks(
            s,
        ).drop_first()[i] == address_chunks(rest)[i] by {
            assert(s.subrange(20 * (i + 1), 20 * (i + 1) + 20) =~= rest.subrange(20 * i, 20 * i + 20));
        }
        assert(address_chunks(s).drop_first() =~= address_chunks(rest));
        assert(address_chunks(s).first() =~= s.subrange(0, 20));
        assert(s =~= s.subrange(0, 20) + rest);
    }
}

/// Everything a new chain context is made from, as plain values.
pub struct ChainContextArgs {
    pub timestamp: u64,
    pub height: u32,
    pub blockhash: h256_t,
    pub txhash: h256_t,
    pub callers: Vec<address_t>,
    pub witness: Vec<address_t>,
    pub input: Vec<u8>,
    pub exec_step: u64,
    pub gas_factor: u64,
    pub gas_left: u64,
    pub depth_left: u64,
    pub service_index: u64,
}

/// Gathers the arguments of a new chain context from what C code passes.
///
/// The caller and witness lists must be whole numbers of addresses; each is
/// split into its addresses, which together hold exactly the bytes given.
pub fn chain_context_args(
    height: u32,
    blockhash: h256_t,
    timestamp: u64,
    txhash: h256_t,
    callers_raw: wasmjit_slice_t,
    witness_raw: wasmjit_slice_t,
    input_raw: wasmjit_slice_t,
    exec_step: u64,
    gas_factor: u64,
    gas_left: u64,
    depth_left: u64,
    service_index: u64,
) -> (args: ChainContextArgs)
    requires
        callers_raw.wf(),
        witness_raw.wf(),
        input_raw.wf(),
        callers_raw.len % 20 == 0,
        witness_raw.len % 20 == 0,
    ensures
        args.height == height,
        args.blockhash == blockhash,
        args.timestamp == timestamp,
        args.txhash == txhash,
        address_bytes(args.callers@) == address_chunks(callers_raw@),
        address_bytes(args.witness@) == address_chunks(witness_raw@),
        address_bytes(args.callers@).flatten() == callers_raw@,
        address_bytes(args.witness@).flatten() == witness_raw@,
        args.input@ == input_raw@,
        args.exec_step == exec_step,
        args.gas_factor == gas_factor,
        args.gas_left == gas_left,
        args.depth_left == depth_left,
        args.service_index == service_index,
{
    proof {
        lemma_address_chunks_flatten(callers_raw@);
        lemma_address_chunks_flatten(witness_raw@);
    }
    let callers = addrs_from_slice(callers_raw);
    let witness = addrs_from_slice(witness_raw);
    ChainContextArgs {
        timestamp,
        height,
        blockhash,
        txhash,
        callers,
        witness,
        input: input_raw.data,
        exec_step,
        gas_factor,
        gas_left,
        depth_left,
        service_index,
    }
}

/// The address that popping a caller yields: the popped address, or the
/// all-zero address when there was no caller left.
pub fn popped_caller_or_zero(popped: Option<address_t>) -> (caller: address_t)
    ensures
        popped matches Some(a) ==> caller == a,
        popped is None ==> caller@ == Seq::new(20, |i: int| 0u8),
{
    match popped {
        Some(a) => a,
        None => {
            let zero: address_t = [0u8; 20];
            assert(zero@ =~= Seq::new(20, |i: int| 0u8));
            zero
        },
    }
}

} // verus!
