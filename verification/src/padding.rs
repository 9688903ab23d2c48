use vstd::prelude::*;
use crate::state::BLOCK_SIZE;

verus! {

/// How many bytes a payload of `len` bytes lacks to fill whole blocks of
/// `block_size` bytes.
pub open spec fn missing(len: nat, block_size: nat) -> nat
    recommends
        block_size > 0,
{
    if len % block_size == 0 {
        0
    } else {
        (block_size - len % block_size) as nat
    }
}

/// `bytes` followed by as many spaces as fill its last block.
pub open spec fn padded(bytes: Seq<u8>, block_size: nat) -> Seq<u8>
    recommends
        block_size > 0,
{
    bytes + Seq::new(missing(bytes.len(), block_size), |i: int| 0x20u8)
}

/// Calls `secret_toolkit::utils::space_pad`. Trusted: it appends spaces to the
/// message until its length is a multiple of `block_size`, and none if it
/// already is one.
#[verifier::external_body]
fn space_pad(message: &mut Vec<u8>, block_size: usize)
    requires
        block_size > 0,
    ensures
        final(message)@ == padded(old(message)@, block_size as nat),
{
    secret_toolkit::utils::space_pad(message, block_size);
}

/// Fills the last block of an outgoing payload with spaces, so that its length
/// tells an observer no more than the number of blocks.
pub fn pad(payload: &mut Vec<u8>)
    ensures
        final(payload)@ == padded(old(payload)@, BLOCK_SIZE as nat),
        final(payload)@.len() % (BLOCK_SIZE as nat) == 0,
        old(payload)@.len() <= final(payload)@.len() < old(payload)@.len() + BLOCK_SIZE,
        final(payload)@.subrange(0, old(payload)@.len() as int) == old(payload)@,
        forall|i: int|
            old(payload)@.len() <= i < final(payload)@.len() ==> final(payload)@[i] == 0x20u8,
{
    space_pad(payload, BLOCK_SIZE);
    proof {
        padded_fills_blocks(old(payload)@, BLOCK_SIZE as nat);
    }
}

/// A padded payload fills whole blocks, starts with the payload itself, goes
/// on with spaces only and is less than one block longer. A payload that
/// already fills whole blocks is left as it is.
pub proof fn padded_fills_blocks(bytes: Seq<u8>, block_size: nat)
    requires
        block_size > 0,
    ensures
        padded(bytes, block_size).len() % block_size == 0,
        bytes.len() <= padded(bytes, block_size).len() < bytes.len() + block_size,
        padded(bytes, block_size).subrange(0, bytes.len() as int) == bytes,
        forall|i: int|
            bytes.len() <= i < padded(bytes, block_size).len() ==> padded(bytes, block_size)[i]
                == 0x20u8,
        bytes.len() % block_size == 0 ==> padded(bytes, block_size) == bytes,
        padded(padded(bytes, block_size), block_size) == padded(bytes, block_size),
{
    let len = bytes.len();
    let out = padded(bytes, block_size);
    assert(out.len() == len + missing(len, block_size));
    assert(out.len() % block_size == 0) by (nonlinear_arith)
        requires
            block_size > 0,
            out.len() == len + missing(len, block_size),
            missing(len, block_size) == (if len % block_size == 0 {
                0
            } else {
                (block_size - len % block_size) as nat
            }),
    {
        let q = len / block_size;
        let r = len % block_size;
        assert(len == q * block_size + r);
        if r != 0 {
            assert(out.len() == (q + 1) * block_size);
        }
    }
    assert(out.subrange(0, len as int) =~= bytes);
    if len % block_size == 0 {
        assert(out =~= bytes);
    }
    assert(padded(out, block_size) =~= out);
}

} // verus!
