//! The keystream combiner: position-wise XOR of the input with the key
//! prefix and the derived keystream. Applying it twice with the same key
//! and keystream returns the original input, which is why encryption and
//! decryption share one routine.

use vstd::prelude::*;

verus! {

/// The position-wise combination: `result[i] == input[i] ^ key[i] ^ iv[i]`
/// for every index of the input. Key bytes are consumed from the start of
/// the key with no wraparound.
pub open spec fn xor3(input: Seq<u8>, key: Seq<u8>, iv: Seq<u8>) -> Seq<u8> {
    Seq::new(input.len(), |i: int| input[i] ^ key[i] ^ iv[i])
}

/// Law: the combiner is its own inverse — combining twice with the same
/// key and keystream returns the original input.
pub proof fn lemma_xor3_self_inverse(input: Seq<u8>, key: Seq<u8>, iv: Seq<u8>)
    ensures
        xor3(xor3(input, key, iv), key, iv) == input,
{
    let once = xor3(input, key, iv);
    let twice = xor3(once, key, iv);
    assert forall|i: int| 0 <= i < input.len() implies twice[i] == input[i] by {
        let a = input[i];
        let b = key[i];
        let c = iv[i];
        assert(((a ^ b ^ c) ^ b ^ c) == a) by (bit_vector);
    }
    assert(twice =~= input);
}

/// Combines `input` byte-for-byte with the key prefix and the derived
/// keystream. One key byte is consumed per input byte, with no repetition.
pub fn xor_encrypt_decrypt_with_iv(input: &[u8], key: &[u8], iv: &[u8]) -> (output: Vec<u8>)
    requires
        key@.len() >= input@.len(),
        iv@.len() == input@.len(),
    ensures
        output@ == xor3(input@, key@, iv@),
{
    let ghost combined = xor3(input@, key@, iv@);
    let mut output: Vec<u8> = Vec::with_capacity(input.len());
    let mut i: usize = 0;
    while i < input.len()
        invariant
            i <= input@.len(),
            key@.len() >= input@.len(),
            iv@.len() == input@.len(),
            combined == xor3(input@, key@, iv@),
            output@ == combined.take(i as int),
        decreases input@.len() - i,
    {
        let b = input[i] ^ key[i] ^ iv[i];
        output.push(b);
        proof {
            assert(combined.take(i + 1) =~= combined.take(i as int).push(combined[i as int]));
        }
        i = i + 1;
    }
    proof {
        assert(combined.take(input@.len() as int) =~= combined);
    }
    output
}

} // verus!
