//! RC4 encryption of protocol messages.
//!
//! The client encrypts with `CLIENT_ENCRYPT_KEY` and decrypts with
//! `CLIENT_DECRYPT_KEY`, so the server decrypts incoming messages with the
//! first and encrypts outgoing ones with the second. The cipher state is
//! created afresh for every message.

use vstd::prelude::*;
use rc4::{KeyInit, Rc4, StreamCipher};

use crate::constants::{CLIENT_DECRYPT_KEY, CLIENT_ENCRYPT_KEY};

verus! {

/// The RC4 keystream of the first `len` bytes produced from a 256-byte key.
pub uninterp spec fn rc4_keystream(key: Seq<u8>, len: nat) -> Seq<u8>;

/// Byte-wise exclusive or of `data` with the first `data.len()` bytes of `stream`.
pub open spec fn xor_with(data: Seq<u8>, stream: Seq<u8>) -> Seq<u8> {
    Seq::new(data.len(), |i: int| data[i] ^ stream[i])
}

/// The 256-byte key that RC4's key schedule sees for `key`: the key repeated
/// cyclically. RC4 reads key byte `i % key.len()` at step `i` of its key
/// schedule, so a key and its cyclic 256-byte expansion schedule the same state.
pub open spec fn expanded_key(key: Seq<u8>) -> Seq<u8>
    recommends
        key.len() > 0,
{
    Seq::new(256, |i: int| key[i % (key.len() as int)])
}

/// What applying the RC4 keystream of `key` does to `data`.
pub open spec fn rc4_apply(key: Seq<u8>, data: Seq<u8>) -> Seq<u8> {
    xor_with(data, rc4_keystream(expanded_key(key), data.len()))
}

/// Calls `rc4::Rc4::<U256>::new` and `StreamCipher::apply_keystream`.
/// Claimed: the buffer is xored with the cipher's keystream, which depends on
/// the key and the buffer's length only (the keystream is named, not stated).
#[verifier::external_body]
fn rc4_apply_keystream_256(data: &mut [u8], key: &[u8; 256])
    ensures
        final(data)@ == xor_with(old(data)@, rc4_keystream(key@, old(data)@.len())),
{
    let mut cipher = Rc4::<rc4::consts::U256>::new(rc4::Key::<rc4::consts::U256>::from_slice(&key[..]));
    cipher.apply_keystream(data);
}

/// Repeats `key` cyclically to 256 bytes.
fn expand_key(key: &[u8]) -> (r: [u8; 256])
    requires
        1 <= key@.len() <= 256,
    ensures
        r@ == expanded_key(key@),
{
    let mut out = [0u8; 256];
    let n = key.len();
    let mut i: usize = 0;
    while i < 256
        invariant
            n == key@.len(),
            1 <= n <= 256,
            i <= 256,
            out@.len() == 256,
            forall|j: int| 0 <= j < i ==> out@[j] == key@[j % (n as int)],
        decreases 256 - i,
    {
        out[i] = key[i % n];
        i += 1;
    }
    assert(out@ =~= expanded_key(key@));
    out
}

/// Applies the RC4 keystream of `key` to `data` in place.
fn apply_with_key(data: &mut [u8], key: &[u8])
    requires
        1 <= key@.len() <= 256,
    ensures
        final(data)@ == rc4_apply(key@, old(data)@),
{
    let expanded = expand_key(key);
    rc4_apply_keystream_256(data, &expanded);
}

/// Decrypts a message received from the client (key: `CLIENT_ENCRYPT_KEY`).
pub fn decrypt_client_message(data: &mut [u8])
    ensures
        final(data)@ == rc4_apply(CLIENT_ENCRYPT_KEY@, old(data)@),
{
    let key = CLIENT_ENCRYPT_KEY;
    apply_with_key(data, &key);
}

/// Encrypts a message for the client (key: `CLIENT_DECRYPT_KEY`).
pub fn encrypt_server_message(data: &mut [u8])
    ensures
        final(data)@ == rc4_apply(CLIENT_DECRYPT_KEY@, old(data)@),
{
    let key = CLIENT_DECRYPT_KEY;
    apply_with_key(data, &key);
}

/// Decrypts `data` in place with a key of 1 to 256 bytes.
pub fn decrypt_with_key(data: &mut [u8], key: &[u8])
    requires
        1 <= key@.len() <= 256,
    ensures
        final(data)@ == rc4_apply(key@, old(data)@),
{
    apply_with_key(data, key);
}

/// Encrypts `data` in place with a key of 1 to 256 bytes.
pub fn encrypt_with_key(data: &mut [u8], key: &[u8])
    requires
        1 <= key@.len() <= 256,
    ensures
        final(data)@ == rc4_apply(key@, old(data)@),
{
    apply_with_key(data, key);
}

/// RC4 is its own inverse: applying the keystream of one key twice gives the
/// data back, so decrypting with the key used to encrypt restores the message.
pub proof fn lemma_rc4_roundtrip(key: Seq<u8>, data: Seq<u8>)
    ensures
        rc4_apply(key, rc4_apply(key, data)) == data,
        rc4_apply(key, data).len() == data.len(),
{
    let once = rc4_apply(key, data);
    let ks = rc4_keystream(expanded_key(key), data.len());
    assert forall|i: int| 0 <= i < data.len() implies #[trigger] rc4_apply(key, once)[i] == data[i] by {
        let a = data[i];
        let b = ks[i];
        assert((a ^ b) ^ b == a) by (bit_vector);
    }
    assert(rc4_apply(key, once) =~= data);
}

} // verus!
