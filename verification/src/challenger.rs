//! Challenge derivation.
//!
//! A challenge is the 32-byte BLAKE2b digest of the execution context
//! (fixed-width little-endian) followed by the action binding: empty for
//! registration, a hash of the pending action for authentication. Binding
//! both inputs into the digest is what keeps a credential proof from being
//! replayed against another context or another action.

use vstd::prelude::*;

use crate::bytes::push_bytes;
use crate::crypto::blake2b256;
use crate::crypto::blake2b256_of;
use crate::Challenge;
use crate::Context;
use vstd::bytes::lemma_auto_spec_u64_to_from_le_bytes;
use vstd::bytes::spec_u64_from_le_bytes;
use vstd::bytes::spec_u64_to_le_bytes;
use vstd::bytes::u64_to_le_bytes;

verus! {

/// The exact byte string that challenge derivation hashes.
pub open spec fn spec_challenge_input(context: Context, binding: Seq<u8>) -> Seq<u8> {
    spec_u64_to_le_bytes(context) + binding
}

/// Challenge derived from an execution context and an action binding.
pub open spec fn spec_generate(context: Context, binding: Seq<u8>) -> Seq<u8> {
    blake2b256_of(spec_challenge_input(context, binding))
}

/// Derives the challenge for one registration or authentication attempt.
/// Pure: the result is a function of `context` and `binding` alone.
pub fn generate(context: Context, binding: &[u8]) -> (r: Challenge)
    ensures
        r@ == spec_generate(context, binding@),
{
    let mut input = u64_to_le_bytes(context);
    push_bytes(&mut input, binding);
    blake2b256(input.as_slice())
}

/// Law: challenge derivation is deterministic. Two requests with the same
/// context and the same binding derive the same challenge.
pub proof fn lemma_generate_deterministic(c1: Context, b1: Seq<u8>, c2: Context, b2: Seq<u8>)
    requires
        c1 == c2,
        b1 == b2,
    ensures
        spec_generate(c1, b1) == spec_generate(c2, b2),
{
}

/// The hashed input determines the context and the binding: the fixed-width
/// context prefix makes the encoding injective.
pub proof fn lemma_challenge_input_injective(c1: Context, b1: Seq<u8>, c2: Context, b2: Seq<u8>)
    requires
        spec_challenge_input(c1, b1) == spec_challenge_input(c2, b2),
    ensures
        c1 == c2,
        b1 == b2,
{
    lemma_auto_spec_u64_to_from_le_bytes();
    let s1 = spec_u64_to_le_bytes(c1);
    let s2 = spec_u64_to_le_bytes(c2);
    assert(s1 =~= (s1 + b1).subrange(0, 8));
    assert(s2 =~= (s2 + b2).subrange(0, 8));
    assert(spec_u64_from_le_bytes(s1) == c1);
    assert(spec_u64_from_le_bytes(s2) == c2);
    assert(b1 =~= (s1 + b1).subrange(8, (s1 + b1).len() as int));
    assert(b2 =~= (s2 + b2).subrange(8, (s2 + b2).len() as int));
}

/// Law: distinct (context, binding) pairs are hashed as distinct byte
/// strings, so their challenges can collide only through a collision of the
/// digest itself.
pub proof fn lemma_generate_distinct_inputs(c1: Context, b1: Seq<u8>, c2: Context, b2: Seq<u8>)
    requires
        c1 != c2 || b1 != b2,
    ensures
        spec_challenge_input(c1, b1) != spec_challenge_input(c2, b2),
{
    if spec_challenge_input(c1, b1) == spec_challenge_input(c2, b2) {
        lemma_challenge_input_injective(c1, b1, c2, b2);
        assert(false);
    }
}

} // verus!
