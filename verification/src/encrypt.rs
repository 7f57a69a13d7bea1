//! The block cipher of the game's server record: TEA with 32 cycles on
//! 8-byte blocks, words read and written little-endian, each block on its own.

use crate::buffer::{bytes_mut_as_slice, bytes_mut_set, bytes_mut_view, bytes_view};
use bytes::{Bytes, BytesMut};
use vstd::prelude::*;

verus! {

/// Bytes in one cipher block.
pub const TEA_BLOCK_SIZE: usize = 8;

/// Cycles of the cipher; each cycle updates both words of the block.
pub const TEA_ROUNDS: u32 = 32;

/// The amount by which the running sum grows in each cycle.
pub const TEA_DELTA: u32 = 0x9E37_79B9;

/// The running sum in cycle `n` of encryption, cycles counted from 1:
/// `n` times the delta, as a 32-bit word.
pub open spec fn round_sum(n: nat) -> u32 {
    ((n * 0x9E37_79B9) % 0x1_0000_0000) as u32
}

/// What one half of a cycle adds to a word: the other word `v` mixed with
/// the running sum and two words of the key.
pub open spec fn feistel(v: u32, sum: u32, ka: u32, kb: u32) -> u32 {
    (v << 4).wrapping_add(ka) ^ v.wrapping_add(sum) ^ (v >> 5).wrapping_add(kb)
}

/// One cycle of encryption with running sum `sum`.
pub open spec fn encrypt_cycle(v: (u32, u32), sum: u32, key: Seq<u32>) -> (u32, u32) {
    let v0 = v.0.wrapping_add(feistel(v.1, sum, key[0], key[1]));
    let v1 = v.1.wrapping_add(feistel(v0, sum, key[2], key[3]));
    (v0, v1)
}

/// One cycle of decryption with running sum `sum`: the inverse of
/// `encrypt_cycle` with the same sum.
pub open spec fn decrypt_cycle(v: (u32, u32), sum: u32, key: Seq<u32>) -> (u32, u32) {
    let v1 = v.1.wrapping_sub(feistel(v.0, sum, key[2], key[3]));
    let v0 = v.0.wrapping_sub(feistel(v1, sum, key[0], key[1]));
    (v0, v1)
}

/// The two words of a block after the first `n` cycles of encryption.
pub open spec fn encrypt_cycles(v: (u32, u32), key: Seq<u32>, n: nat) -> (u32, u32)
    decreases n,
{
    if n == 0 {
        v
    } else {
        encrypt_cycle(encrypt_cycles(v, key, (n - 1) as nat), round_sum(n), key)
    }
}

/// The two words of a block that is `n` cycles from plaintext, after those
/// `n` cycles have been undone.
pub open spec fn decrypt_cycles(v: (u32, u32), key: Seq<u32>, n: nat) -> (u32, u32)
    decreases n,
{
    if n == 0 {
        v
    } else {
        decrypt_cycles(decrypt_cycle(v, round_sum(n), key), key, (n - 1) as nat)
    }
}

/// The words of a block after all 32 cycles of encryption.
pub open spec fn encrypt_words(v: (u32, u32), key: Seq<u32>) -> (u32, u32) {
    encrypt_cycles(v, key, TEA_ROUNDS as nat)
}

/// The words of a block after all 32 cycles of decryption.
pub open spec fn decrypt_words(v: (u32, u32), key: Seq<u32>) -> (u32, u32) {
    decrypt_cycles(v, key, TEA_ROUNDS as nat)
}

/// The 32-bit word that four bytes spell, the lowest byte first.
pub open spec fn word_from_le(b: Seq<u8>) -> u32
    recommends
        b.len() == 4,
{
    (b[0] + 0x100 * b[1] + 0x1_0000 * b[2] + 0x100_0000 * b[3]) as u32
}

/// The four bytes of a 32-bit word, the lowest first.
pub open spec fn word_to_le(w: u32) -> Seq<u8> {
    seq![
        (w % 0x100) as u8,
        (w / 0x100 % 0x100) as u8,
        (w / 0x1_0000 % 0x100) as u8,
        (w / 0x100_0000) as u8,
    ]
}

/// The two words of an 8-byte block.
pub open spec fn block_words(block: Seq<u8>) -> (u32, u32)
    recommends
        block.len() == 8,
{
    (word_from_le(block.subrange(0, 4)), word_from_le(block.subrange(4, 8)))
}

/// The 8 bytes that two words make.
pub open spec fn words_block(v: (u32, u32)) -> Seq<u8> {
    word_to_le(v.0) + word_to_le(v.1)
}

/// The ciphertext of one 8-byte block under `key`.
pub open spec fn encrypt_block(block: Seq<u8>, key: Seq<u32>) -> Seq<u8>
    recommends
        block.len() == 8,
        key.len() == 4,
{
    words_block(encrypt_words(block_words(block), key))
}

/// The plaintext of one 8-byte block of ciphertext under `key`.
pub open spec fn decrypt_block(block: Seq<u8>, key: Seq<u32>) -> Seq<u8>
    recommends
        block.len() == 8,
        key.len() == 4,
{
    words_block(decrypt_words(block_words(block), key))
}

/// The block of `data` in which byte `i` lies.
pub open spec fn block_at(data: Seq<u8>, i: int) -> Seq<u8> {
    data.subrange(i - i % 8, i - i % 8 + 8)
}

/// The ciphertext of a whole buffer: each 8-byte block encrypted by itself
/// and left in its place. Byte `i` of the result is byte `i % 8` of the
/// ciphertext of the block in which byte `i` of `data` lies.
pub open spec fn encrypt_bytes(data: Seq<u8>, key: Seq<u32>) -> Seq<u8>
    recommends
        data.len() % 8 == 0,
        key.len() == 4,
{
    Seq::new(data.len(), |i: int| encrypt_block(block_at(data, i), key)[i % 8])
}

/// The plaintext of a whole buffer of ciphertext: each 8-byte block
/// decrypted by itself and left in its place.
pub open spec fn decrypt_bytes(data: Seq<u8>, key: Seq<u32>) -> Seq<u8>
    recommends
        data.len() % 8 == 0,
        key.len() == 4,
{
    Seq::new(data.len(), |i: int| decrypt_block(block_at(data, i), key)[i % 8])
}

/// `buf` with the 8 bytes from `offset` on replaced by `block`.
pub open spec fn with_block(buf: Seq<u8>, offset: int, block: Seq<u8>) -> Seq<u8>
    recommends
        0 <= offset,
        offset + 8 <= buf.len(),
        block.len() == 8,
{
    buf.subrange(0, offset) + block + buf.subrange(offset + 8, buf.len() as int)
}

proof fn lemma_round_sum_next(n: nat)
    ensures
        round_sum(n).wrapping_add(TEA_DELTA) == round_sum(n + 1),
        round_sum(n + 1).wrapping_sub(TEA_DELTA) == round_sum(n),
{
    let x = n * 0x9E37_79B9;
    assert((n + 1) * 0x9E37_79B9 == x + 0x9E37_79B9) by (nonlinear_arith)
        requires
            x == n * 0x9E37_79B9,
    ;
}

fn feistel_word(v: u32, sum: u32, ka: u32, kb: u32) -> (r: u32)
    ensures
        r == feistel(v, sum, ka, kb),
{
    (v << 4).wrapping_add(ka) ^ v.wrapping_add(sum) ^ (v >> 5).wrapping_add(kb)
}

/// Encrypts the two words of one block.
pub fn encrypt_pair(v0: u32, v1: u32, key: &[u32; 4]) -> (r: (u32, u32))
    ensures
        r == encrypt_words((v0, v1), key@),
{
    let mut a = v0;
    let mut b = v1;
    let mut sum: u32 = 0;
    let mut i: u32 = 0;
    while i < TEA_ROUNDS
        invariant
            i <= TEA_ROUNDS,
            sum == round_sum(i as nat),
            (a, b) == encrypt_cycles((v0, v1), key@, i as nat),
        decreases TEA_ROUNDS - i,
    {
        proof {
            lemma_round_sum_next(i as nat);
        }
        sum = sum.wrapping_add(TEA_DELTA);
        a = a.wrapping_add(feistel_word(b, sum, key[0], key[1]));
        b = b.wrapping_add(feistel_word(a, sum, key[2], key[3]));
        i += 1;
    }
    (a, b)
}

/// Decrypts the two words of one block.
pub fn decrypt_pair(v0: u32, v1: u32, key: &[u32; 4]) -> (r: (u32, u32))
    ensures
        r == decrypt_words((v0, v1), key@),
{
    let mut a = v0;
    let mut b = v1;
    let mut sum: u32 = 0xC6EF_3720;
    let mut i: u32 = TEA_ROUNDS;
    while i > 0
        invariant
            i <= TEA_ROUNDS,
            sum == round_sum(i as nat),
            decrypt_cycles((a, b), key@, i as nat) == decrypt_words((v0, v1), key@),
        decreases i,
    {
        proof {
            lemma_round_sum_next((i - 1) as nat);
        }
        b = b.wrapping_sub(feistel_word(a, sum, key[2], key[3]));
        a = a.wrapping_sub(feistel_word(b, sum, key[0], key[1]));
        sum = sum.wrapping_sub(TEA_DELTA);
        i -= 1;
    }
    (a, b)
}

fn load_word(s: &[u8], at: usize) -> (w: u32)
    requires
        at + 4 <= s@.len(),
    ensures
        w == word_from_le(s@.subrange(at as int, at + 4)),
{
    let b0 = s[at] as u32;
    let b1 = s[at + 1] as u32;
    let b2 = s[at + 2] as u32;
    let b3 = s[at + 3] as u32;
    b0 + 0x100 * b1 + 0x1_0000 * b2 + 0x100_0000 * b3
}

fn store_word(buf: &mut BytesMut, at: usize, w: u32)
    requires
        at + 4 <= bytes_mut_view(*old(buf)).len(),
        at + 4 <= usize::MAX,
    ensures
        bytes_mut_view(*final(buf)) == {
            let before = bytes_mut_view(*old(buf));
            before.subrange(0, at as int) + word_to_le(w) + before.subrange(
                at + 4,
                before.len() as int,
            )
        },
{
    bytes_mut_set(buf, at, (w % 0x100) as u8);
    bytes_mut_set(buf, at + 1, (w / 0x100 % 0x100) as u8);
    bytes_mut_set(buf, at + 2, (w / 0x1_0000 % 0x100) as u8);
    bytes_mut_set(buf, at + 3, (w / 0x100_0000) as u8);
}

/// Encrypts in place the block of `input` that starts at `input_offset`.
/// The bytes around the block stay as they are.
pub fn tea32_encrypt_block(input: &mut BytesMut, input_offset: usize, key: &[u32; 4])
    requires
        input_offset + 8 <= bytes_mut_view(*old(input)).len(),
    ensures
        bytes_mut_view(*final(input)) == with_block(
            bytes_mut_view(*old(input)),
            input_offset as int,
            encrypt_block(
                bytes_mut_view(*old(input)).subrange(input_offset as int, input_offset + 8),
                key@,
            ),
        ),
{
    let ghost before = bytes_mut_view(*input);
    let plain = bytes_mut_as_slice(input);
    proof {
        vstd::slice::axiom_spec_len(plain);
    }
    let v0 = load_word(plain, input_offset);
    let v1 = load_word(plain, input_offset + 4);
    proof {
        let block = before.subrange(input_offset as int, input_offset + 8);
        assert(block.subrange(0, 4) == before.subrange(input_offset as int, input_offset + 4));
        assert(block.subrange(4, 8) == before.subrange(input_offset + 4, input_offset + 8));
    }
    let (c0, c1) = encrypt_pair(v0, v1, key);
    store_word(input, input_offset, c0);
    store_word(input, input_offset + 4, c1);
}

/// Decrypts in place the block of `input` that starts at `input_offset`.
/// The bytes around the block stay as they are.
pub fn tea32_decrypt_block(input: &mut BytesMut, input_offset: usize, key: &[u32; 4])
    requires
        input_offset + 8 <= bytes_mut_view(*old(input)).len(),
    ensures
        bytes_mut_view(*final(input)) == with_block(
            bytes_mut_view(*old(input)),
            input_offset as int,
            decrypt_block(
                bytes_mut_view(*old(input)).subrange(input_offset as int, input_offset + 8),
                key@,
            ),
        ),
{
    let ghost before = bytes_mut_view(*input);
    let cipher = bytes_mut_as_slice(input);
    proof {
        vstd::slice::axiom_spec_len(cipher);
    }
    let v0 = load_word(cipher, input_offset);
    let v1 = load_word(cipher, input_offset + 4);
    proof {
        let block = before.subrange(input_offset as int, input_offset + 8);
        assert(block.subrange(0, 4) == before.subrange(input_offset as int, input_offset + 4));
        assert(block.subrange(4, 8) == before.subrange(input_offset + 4, input_offset + 8));
    }
    let (d0, d1) = decrypt_pair(v0, v1, key);
    store_word(input, input_offset, d0);
    store_word(input, input_offset + 4, d1);
}

/// Encrypts a whole buffer, block by block from the front, and returns the
/// ciphertext; `data` is left as it is. The length of `data` must be a
/// multiple of the block size.
pub fn tea32_encrypt(data: &BytesMut, key: &[u32; 4]) -> (output: Bytes)
    requires
        bytes_mut_view(*data).len() % 8 == 0,
    ensures
        bytes_view(output) == encrypt_bytes(bytes_mut_view(*data), key@),
{
    let ghost plain = bytes_mut_view(*data);
    let length_rounded_to_block_size: usize = (data.len() + (TEA_BLOCK_SIZE - 1)) / TEA_BLOCK_SIZE
        * TEA_BLOCK_SIZE;

    let mut output = BytesMut::with_capacity(length_rounded_to_block_size);
    output.extend_from_slice(bytes_mut_as_slice(data));
    assert(bytes_mut_view(output) == plain);

    let mut block_offset: usize = 0;
    while block_offset < output.len()
        invariant
            plain.len() % 8 == 0,
            plain.len() <= isize::MAX,
            block_offset % 8 == 0,
            block_offset <= plain.len(),
            bytes_mut_view(output).len() == plain.len(),
            forall|i: int|
                0 <= i < block_offset ==> bytes_mut_view(output)[i] == encrypt_bytes(
                    plain,
                    key@,
                )[i],
            forall|i: int|
                block_offset <= i < plain.len() ==> bytes_mut_view(output)[i] == plain[i],
        decreases plain.len() - block_offset,
    {
        let ghost before = bytes_mut_view(output);
        assert(before.subrange(block_offset as int, block_offset + 8) == block_at(
            plain,
            block_offset as int,
        ));
        tea32_encrypt_block(&mut output, block_offset, key);
        assert forall|i: int| block_offset <= i < block_offset + 8 implies bytes_mut_view(
            output,
        )[i] == encrypt_bytes(plain, key@)[i] by {
            assert(i - i % 8 == block_offset);
        }
        block_offset += TEA_BLOCK_SIZE;
    }

    let output = output.freeze();
    assert(bytes_view(output) == encrypt_bytes(plain, key@));
    output
}

/// Decryption undoes encryption: a block that was encrypted under a key
/// comes back unchanged when it is decrypted under the same key.
pub proof fn lemma_decrypt_inverts_encrypt(block: Seq<u8>, key: Seq<u32>)
    requires
        block.len() == 8,
    ensures
        decrypt_block(encrypt_block(block, key), key) == block,
{
    let v = block_words(block);
    let c = encrypt_words(v, key);
    lemma_cycles_invert(v, key, TEA_ROUNDS as nat);
    lemma_words_of_block(c);
    assert(block_words(words_block(c)) == c);
    lemma_block_of_words(block);
}

/// Decryption undoes encryption on whole buffers too: what was encrypted
/// block by block comes back unchanged when it is decrypted block by block
/// under the same key.
pub proof fn lemma_decrypt_bytes_inverts_encrypt(data: Seq<u8>, key: Seq<u32>)
    requires
        data.len() % 8 == 0,
    ensures
        decrypt_bytes(encrypt_bytes(data, key), key) == data,
{
    let cipher = encrypt_bytes(data, key);
    assert forall|i: int| 0 <= i < data.len() implies decrypt_bytes(cipher, key)[i] == data[i] by {
        let j = i / 8;
        assert(i - i % 8 == 8 * j);
        lemma_block_of_ciphertext(data, key, j);
        assert(block_at(cipher, i) == cipher.subrange(8 * j, 8 * j + 8));
        lemma_decrypt_inverts_encrypt(block_at(data, i), key);
    }
    assert(decrypt_bytes(cipher, key) =~= data);
}

/// Each block is encrypted by itself: where two buffers hold the same 8
/// bytes in block `j`, their ciphertexts hold the same 8 bytes there,
/// namely the ciphertext of that one block.
pub proof fn lemma_blocks_independent(a: Seq<u8>, b: Seq<u8>, key: Seq<u32>, j: int)
    requires
        a.len() % 8 == 0,
        b.len() % 8 == 0,
        0 <= j,
        8 * j + 8 <= a.len(),
        8 * j + 8 <= b.len(),
        a.subrange(8 * j, 8 * j + 8) == b.subrange(8 * j, 8 * j + 8),
    ensures
        encrypt_bytes(a, key).subrange(8 * j, 8 * j + 8) == encrypt_block(
            a.subrange(8 * j, 8 * j + 8),
            key,
        ),
        encrypt_bytes(a, key).subrange(8 * j, 8 * j + 8) == encrypt_bytes(b, key).subrange(
            8 * j,
            8 * j + 8,
        ),
{
    lemma_block_of_ciphertext(a, key, j);
    lemma_block_of_ciphertext(b, key, j);
}

proof fn lemma_block_of_ciphertext(data: Seq<u8>, key: Seq<u32>, j: int)
    requires
        0 <= j,
        8 * j + 8 <= data.len(),
    ensures
        encrypt_bytes(data, key).subrange(8 * j, 8 * j + 8) == encrypt_block(
            data.subrange(8 * j, 8 * j + 8),
            key,
        ),
{
    let block = data.subrange(8 * j, 8 * j + 8);
    let out = encrypt_bytes(data, key).subrange(8 * j, 8 * j + 8);
    assert(encrypt_block(block, key).len() == 8);
    assert forall|k: int| 0 <= k < 8 implies out[k] == encrypt_block(block, key)[k] by {
        let i = 8 * j + k;
        assert(i % 8 == k && i - i % 8 == 8 * j);
        assert(block_at(data, i) == block);
    }
}

proof fn lemma_cycle_inverts(v: (u32, u32), sum: u32, key: Seq<u32>)
    ensures
        decrypt_cycle(encrypt_cycle(v, sum, key), sum, key) == v,
{
}

proof fn lemma_cycles_invert(v: (u32, u32), key: Seq<u32>, n: nat)
    ensures
        decrypt_cycles(encrypt_cycles(v, key, n), key, n) == v,
    decreases n,
{
    if n > 0 {
        let before = encrypt_cycles(v, key, (n - 1) as nat);
        lemma_cycle_inverts(before, round_sum(n), key);
        lemma_cycles_invert(v, key, (n - 1) as nat);
    }
}

proof fn lemma_word_of_le(w: u32)
    ensures
        word_to_le(w).len() == 4,
        word_from_le(word_to_le(w)) == w,
{
}

proof fn lemma_le_of_word(b: Seq<u8>)
    requires
        b.len() == 4,
    ensures
        word_to_le(word_from_le(b)) == b,
{
    let w = word_from_le(b);
    let hi = b[2] + 0x100 * b[3];
    let mid = b[1] + 0x100 * hi;
    assert(w == b[0] + 0x100 * mid);
    assert(w % 0x100 == b[0] && w / 0x100 == mid);
    assert(mid % 0x100 == b[1] && mid / 0x100 == hi);
    assert(w == b[0] + 0x100 * b[1] + 0x1_0000 * hi);
    assert(w / 0x1_0000 == hi);
    assert(hi % 0x100 == b[2] && hi / 0x100 == b[3]);
    assert(w / 0x100_0000 == b[3]);
    assert(word_to_le(w) =~= b);
}

proof fn lemma_words_of_block(v: (u32, u32))
    ensures
        words_block(v).len() == 8,
        block_words(words_block(v)) == v,
{
    let b = words_block(v);
    lemma_word_of_le(v.0);
    lemma_word_of_le(v.1);
    assert(b.subrange(0, 4) == word_to_le(v.0));
    assert(b.subrange(4, 8) == word_to_le(v.1));
}

proof fn lemma_block_of_words(block: Seq<u8>)
    requires
        block.len() == 8,
    ensures
        words_block(block_words(block)) == block,
{
    lemma_le_of_word(block.subrange(0, 4));
    lemma_le_of_word(block.subrange(4, 8));
    assert(block.subrange(0, 4) + block.subrange(4, 8) == block);
}

} // verus!
