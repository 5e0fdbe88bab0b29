//! AES-128 primitives for the Bluetooth `e` function and the RPA hash `ah`.
//!
//! The block cipher itself comes from the `aes` crate; this module only
//! states what it returns and builds the Bluetooth byte-order conventions
//! on top of it.

use aes::cipher::generic_array::GenericArray;
use aes::cipher::{BlockDecrypt, BlockEncrypt, KeyInit};
use aes::Aes128;
use vstd::prelude::*;

verus! {

/// The AES-128 encryption of one 16-byte block under a 16-byte key.
pub uninterp spec fn aes128_block(key: Seq<u8>, block: Seq<u8>) -> Seq<u8>;

/// The AES-128 decryption of one 16-byte block under a 16-byte key.
pub uninterp spec fn aes128_block_inv(key: Seq<u8>, block: Seq<u8>) -> Seq<u8>;

/// Relies on `aes::Aes128` with `cipher::BlockEncrypt::encrypt_block`: one
/// AES-128 block encryption, a pure function of key and block.  The crate's
/// documentation shows that `decrypt_block` restores what `encrypt_block`
/// produced, which the second clause records.
#[verifier::external_body]
pub fn aes128_encrypt(key: &[u8; 16], block: &[u8; 16]) -> (r: [u8; 16])
    ensures
        r@ == aes128_block(key@, block@),
        aes128_block_inv(key@, r@) == block@,
{
    let cipher = Aes128::new(&GenericArray::from(*key));
    let mut b = GenericArray::from(*block);
    cipher.encrypt_block(&mut b);
    b.into()
}

/// Relies on `aes::Aes128` with `cipher::BlockDecrypt::decrypt_block`: one
/// AES-128 block decryption, the inverse of `encrypt_block` per the crate's
/// documentation, which the second clause records.
#[verifier::external_body]
pub fn aes128_decrypt(key: &[u8; 16], block: &[u8; 16]) -> (r: [u8; 16])
    ensures
        r@ == aes128_block_inv(key@, block@),
        aes128_block(key@, r@) == block@,
{
    let cipher = Aes128::new(&GenericArray::from(*key));
    let mut b = GenericArray::from(*block);
    cipher.decrypt_block(&mut b);
    b.into()
}

/// Law: decrypting an encrypted block yields the block back, for every key
/// and every block.
pub fn encrypt_then_decrypt(key: &[u8; 16], block: &[u8; 16]) -> (r: [u8; 16])
    ensures
        r@ == block@,
{
    let c = aes128_encrypt(key, block);
    aes128_decrypt(key, &c)
}

/// Reverse a 16-byte array.
pub fn reverse16(a: &[u8; 16]) -> (r: [u8; 16])
    ensures
        r@ == a@.reverse(),
{
    let mut r: [u8; 16] = [0; 16];
    let mut i: usize = 0;
    while i < 16
        invariant
            i <= 16,
            r@.len() == 16,
            forall|j: int| 0 <= j < i ==> r@[j] == a@[15 - j],
        decreases 16 - i,
    {
        r[i] = a[15 - i];
        i = i + 1;
    }
    assert(r@ =~= a@.reverse());
    r
}

/// The Bluetooth Core `e` function: AES-128 over a byte-reversed key and
/// message, with the output reversed again (the spec's `e` works on
/// little-endian wire order).
pub open spec fn spec_e(key: Seq<u8>, data: Seq<u8>) -> Seq<u8> {
    aes128_block(key.reverse(), data.reverse()).reverse()
}

/// Security function `e` on little-endian wire order.
pub fn e(key: &[u8; 16], data: &[u8; 16]) -> (r: [u8; 16])
    ensures
        r@ == spec_e(key@, data@),
{
    let swapped_key = reverse16(key);
    let swapped_data = reverse16(data);
    let encrypted = aes128_encrypt(&swapped_key, &swapped_data);
    reverse16(&encrypted)
}

/// The random-address hash input: the 3-byte `prand` followed by 13 zero
/// bytes.
pub open spec fn spec_ah_input(r: Seq<u8>) -> Seq<u8> {
    r + Seq::new(13, |i: int| 0u8)
}

/// The random-address hash function `ah`: the first 3 bytes of
/// `e(k, prand padded with zeros)`.
pub open spec fn spec_ah(k: Seq<u8>, r: Seq<u8>) -> Seq<u8> {
    Seq::new(3, |i: int| spec_e(k, spec_ah_input(r))[i])
}

/// Random-address hash `ah(k, r)` from the Bluetooth Core specification,
/// used to resolve RPAs against a stored IRK.
pub fn ah(k: &[u8; 16], r: &[u8; 3]) -> (hash: [u8; 3])
    ensures
        hash@ == spec_ah(k@, r@),
{
    let r_padded: [u8; 16] = [r[0], r[1], r[2], 0, 0, 0, 0, 0, 0, 0, 0, 0, 0, 0, 0, 0];
    assert(r_padded@ =~= spec_ah_input(r@));
    let encrypted = e(k, &r_padded);
    let hash: [u8; 3] = [encrypted[0], encrypted[1], encrypted[2]];
    assert(hash@ =~= encrypted@.subrange(0, 3));
    hash
}

} // verus!
