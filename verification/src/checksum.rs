//! The one's-complement checksum that covers every ICMP datagram: the sum of
//! the big-endian 16-bit words of the buffer, with the word holding the
//! checksum field itself left out of the sum, carries folded back into the low
//! 16 bits, and the result complemented.

use vstd::prelude::*;
use vstd::arithmetic::div_mod::lemma_fundamental_div_mod;

verus! {

/// How many 16-bit words cover `len` bytes; an odd trailing byte counts as a word.
pub open spec fn word_count(len: int) -> int {
    (len + 1) / 2
}

/// The big-endian 16-bit word at word index `i`; an odd trailing byte is
/// padded with a zero low byte.
pub open spec fn word_at(b: Seq<u8>, i: int) -> int {
    if 2 * i + 1 < b.len() {
        b[2 * i] * 0x100 + b[2 * i + 1]
    } else {
        b[2 * i] * 0x100
    }
}

/// The sum of the first `n` words of `b`, the word at index `skip` left out.
pub open spec fn sum_words(b: Seq<u8>, skip: int, n: int) -> int
    decreases n,
{
    if n <= 0 {
        0
    } else {
        sum_words(b, skip, n - 1) + if n - 1 == skip {
            0
        } else {
            word_at(b, n - 1)
        }
    }
}

/// One's-complement carry folding: add the high half back into the low half
/// until the value fits in 16 bits.
pub open spec fn fold_carries(s: int) -> int
    decreases s via fold_carries_decreases
{
    if s < 0x10000 {
        s
    } else {
        fold_carries(s / 0x10000 + s % 0x10000)
    }
}

#[via_fn]
proof fn fold_carries_decreases(s: int) {
    if s >= 0x10000 {
        lemma_fundamental_div_mod(s, 0x10000);
    }
}

/// The checksum of buffer `b`, the 16-bit word at index `skip` excluded from
/// the sum; an empty buffer checksums to zero.
pub open spec fn checksum_of(b: Seq<u8>, skip: int) -> int {
    if b.len() == 0 {
        0
    } else {
        0xFFFF - fold_carries(sum_words(b, skip, word_count(b.len() as int)))
    }
}

proof fn lemma_sum_words_nonneg(b: Seq<u8>, skip: int, n: int)
    requires
        2 * n <= b.len() + 1,
    ensures
        0 <= sum_words(b, skip, n),
    decreases n,
{
    if n > 0 {
        lemma_sum_words_nonneg(b, skip, n - 1);
    }
}

proof fn lemma_fold_carries_bound(s: int)
    requires
        0 <= s,
    ensures
        0 <= fold_carries(s) < 0x10000,
    decreases s,
{
    if s >= 0x10000 {
        lemma_fundamental_div_mod(s, 0x10000);
        lemma_fold_carries_bound(s / 0x10000 + s % 0x10000);
    }
}

/// The checksum of a non-empty buffer is a 16-bit value.
pub proof fn lemma_checksum_fits(b: Seq<u8>, skip: int)
    ensures
        0 <= checksum_of(b, skip) <= 0xFFFF,
{
    if b.len() > 0 {
        lemma_sum_words_nonneg(b, skip, word_count(b.len() as int));
        lemma_fold_carries_bound(sum_words(b, skip, word_count(b.len() as int)));
    }
}

proof fn lemma_sum_words_eq(a: Seq<u8>, b: Seq<u8>, skip: int, n: int)
    requires
        a.len() == b.len(),
        forall|j: int| 0 <= j < n && j != skip ==> word_at(a, j) == word_at(b, j),
    ensures
        sum_words(a, skip, n) == sum_words(b, skip, n),
    decreases n,
{
    if n > 0 {
        lemma_sum_words_eq(a, b, skip, n - 1);
    }
}

/// Two buffers of one length that agree everywhere but on the skipped word
/// have the same checksum: the checksum field's own content never matters.
pub proof fn lemma_checksum_ignores_skipped_word(a: Seq<u8>, b: Seq<u8>, skip: int)
    requires
        a.len() == b.len(),
        forall|i: int| 0 <= i < a.len() && i != 2 * skip && i != 2 * skip + 1 ==> a[i] == b[i],
    ensures
        checksum_of(a, skip) == checksum_of(b, skip),
{
    if a.len() > 0 {
        assert forall|j: int| 0 <= j < word_count(a.len() as int) && j != skip
            implies word_at(a, j) == word_at(b, j) by {
        }
        lemma_sum_words_eq(a, b, skip, word_count(a.len() as int));
    }
}

/// Recomputing the checksum of a datagram whose checksum field already holds
/// the computed value reproduces that value: storing the checksum does not
/// disturb it.
pub proof fn lemma_checksum_recompute(b: Seq<u8>, skip: int)
    requires
        0 <= skip,
        2 * skip + 1 < b.len(),
    ensures
        ({
            let c = checksum_of(b, skip);
            let stored = b.update(2 * skip, (c / 0x100) as u8).update(2 * skip + 1, (c % 0x100) as u8);
            checksum_of(stored, skip) == c
        }),
{
    let c = checksum_of(b, skip);
    let stored = b.update(2 * skip, (c / 0x100) as u8).update(2 * skip + 1, (c % 0x100) as u8);
    lemma_checksum_ignores_skipped_word(stored, b, skip);
}

/// The one's-complement checksum of `data`, leaving the 16-bit word at index
/// `skip` out of the sum.
pub fn checksum(data: &Vec<u8>, skip: usize) -> (r: u16)
    requires
        data@.len() <= 0x10000,
    ensures
        r as int == checksum_of(data@, skip as int),
{
    let n: usize = data.len();
    if n == 0 {
        return 0;
    }
    let words: usize = (n + 1) / 2;
    let mut sum: u64 = 0;
    let mut i: usize = 0;
    while i < words
        invariant
            n == data@.len(),
            n <= 0x10000,
            1 <= words,
            words == word_count(n as int),
            i <= words,
            sum as int == sum_words(data@, skip as int, i as int),
            sum as int <= i as int * 0xFFFF,
        decreases words - i,
    {
        if i != skip {
            let hi: u64 = data[2 * i] as u64;
            let w: u64 = if 2 * i + 1 < n {
                hi * 0x100 + data[2 * i + 1] as u64
            } else {
                hi * 0x100
            };
            sum = sum + w;
        }
        i = i + 1;
    }
    let mut s: u64 = sum;
    while s >= 0x10000
        invariant
            fold_carries(s as int) == fold_carries(sum as int),
        decreases s,
    {
        proof {
            lemma_fundamental_div_mod(s as int, 0x10000);
        }
        s = s / 0x10000 + s % 0x10000;
    }
    0xFFFF - (s as u16)
}

} // verus!
