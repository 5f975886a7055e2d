//! RFC 1071 ones-complement checksum over a byte message.
//!
//! The message is read as a sequence of 16-bit big-endian words (a trailing
//! odd byte is padded on the right with a zero byte), the words are summed as
//! plain integers, the carries above 16 bits are folded back in until the sum
//! fits in 16 bits, and the result is the ones complement of that folded sum.

use vstd::prelude::*;
use vstd::arithmetic::div_mod::lemma_fundamental_div_mod;
use vstd::arithmetic::div_mod::lemma_mod_multiples_vanish;

verus! {

/// The 16-bit big-endian word at word index `i` of `data`; a trailing odd
/// byte stands alone as the high half of its word.
pub open spec fn word_at(data: Seq<u8>, i: int) -> int {
    if 2 * i + 1 < data.len() {
        data[2 * i] * 256 + data[2 * i + 1]
    } else {
        data[2 * i] * 256
    }
}

/// How many 16-bit words `data` holds, the trailing odd byte counted as one.
pub open spec fn num_words(data: Seq<u8>) -> int {
    (data.len() as int + 1) / 2
}

/// Plain integer sum of the first `k` words of `data`.
pub open spec fn sum_words_upto(data: Seq<u8>, k: int) -> int
    decreases k,
{
    if k <= 0 {
        0
    } else {
        sum_words_upto(data, k - 1) + word_at(data, k - 1)
    }
}

/// Plain integer sum of all the words of `data`.
pub open spec fn sum_words(data: Seq<u8>) -> int {
    sum_words_upto(data, num_words(data))
}

/// Fold the carries of a plain word sum back into 16 bits, end-around.
pub open spec fn fold_carries(s: int) -> int
    decreases s,
{
    if s < 0x10000 {
        s
    } else {
        fold_carries(s % 0x10000 + s / 0x10000)
    }
}

/// The RFC 1071 checksum of `data`: the ones complement of the folded sum.
pub open spec fn checksum_spec(data: Seq<u8>) -> int {
    0xFFFF - fold_carries(sum_words(data))
}

/// Every word lies in `[0, 0xFFFF]`.
pub proof fn lemma_word_at_bounds(data: Seq<u8>, i: int)
    ensures
        0 <= word_at(data, i) <= 0xFFFF,
{
}

/// A partial word sum of `k` words lies in `[0, k * 0xFFFF]`.
pub proof fn lemma_sum_words_upto_bounds(data: Seq<u8>, k: int)
    requires
        0 <= k,
    ensures
        0 <= sum_words_upto(data, k) <= k * 0xFFFF,
    decreases k,
{
    if k > 0 {
        lemma_sum_words_upto_bounds(data, k - 1);
        lemma_word_at_bounds(data, k - 1);
    }
}

/// Folding lands in `[0, 0xFFFF]`.
pub proof fn lemma_fold_carries_range(s: int)
    requires
        0 <= s,
    ensures
        0 <= fold_carries(s) <= 0xFFFF,
    decreases s,
{
    if s >= 0x10000 {
        lemma_fundamental_div_mod(s, 0x10000);
        lemma_fold_carries_range(s % 0x10000 + s / 0x10000);
    }
}

/// Folding keeps the value class modulo 0xFFFF: this is what makes the
/// end-around carry equivalent to arithmetic modulo 2^16 - 1.
pub proof fn lemma_fold_carries_mod(s: int)
    requires
        0 <= s,
    ensures
        fold_carries(s) % 0xFFFF == s % 0xFFFF,
    decreases s,
{
    if s >= 0x10000 {
        let s2 = s % 0x10000 + s / 0x10000;
        lemma_fundamental_div_mod(s, 0x10000);
        assert(s == 0xFFFF * (s / 0x10000) + s2);
        lemma_mod_multiples_vanish(s / 0x10000, s2, 0xFFFF);
        lemma_fold_carries_mod(s2);
    }
}

/// Folding a positive sum never reaches zero.
pub proof fn lemma_fold_carries_pos(s: int)
    requires
        0 < s,
    ensures
        0 < fold_carries(s),
    decreases s,
{
    if s >= 0x10000 {
        lemma_fundamental_div_mod(s, 0x10000);
        lemma_fold_carries_pos(s % 0x10000 + s / 0x10000);
    }
}

/// Adding the ones complement of a sum's fold back onto the sum folds to
/// 0xFFFF, the ones-complement zero: recomputing a checksum over a message
/// that already carries its own checksum therefore yields zero.
pub proof fn lemma_fold_of_sum_plus_complement(s: int)
    requires
        0 <= s,
    ensures
        fold_carries(s + 0xFFFF - fold_carries(s)) == 0xFFFF,
{
    let f = fold_carries(s);
    lemma_fold_carries_range(s);
    let t = s + 0xFFFF - f;
    lemma_fold_carries_mod(s);
    lemma_fold_carries_range(t);
    lemma_fold_carries_mod(t);
    // t differs from s - f by exactly one multiple of 0xFFFF
    lemma_mod_multiples_vanish(1, s - f, 0xFFFF);
    assert(t % 0xFFFF == (s - f) % 0xFFFF);
    // and s - f differs from s % 0xFFFF - f % 0xFFFF == 0 by a multiple too
    lemma_fundamental_div_mod(s, 0xFFFF);
    lemma_fundamental_div_mod(f, 0xFFFF);
    assert(s - f == 0xFFFF * (s / 0xFFFF - f / 0xFFFF)) by {
        assert(s % 0xFFFF == f % 0xFFFF);
    }
    lemma_mod_multiples_vanish(s / 0xFFFF - f / 0xFFFF, 0, 0xFFFF);
    assert(t % 0xFFFF == 0);
    lemma_fold_carries_pos(t);
    let ft = fold_carries(t);
    if ft < 0xFFFF {
        vstd::arithmetic::div_mod::lemma_small_mod(ft as nat, 0xFFFF as nat);
        assert(ft == 0);
        assert(false);
    }
}

/// Computes the RFC 1071 ones-complement checksum of `data`.
///
/// The length bound is the IP limit: a datagram, and so an ICMP message,
/// never exceeds 65535 bytes.
pub fn rfc1071_checksum(data: &Vec<u8>) -> (r: u16)
    requires
        data@.len() <= 0xFFFF,
    ensures
        r as int == checksum_spec(data@),
{
    let n: usize = data.len();
    let words: usize = (n + 1) / 2;
    let mut acc: u64 = 0;
    let mut i: usize = 0;
    while i < words
        invariant
            data@.len() == n <= 0xFFFF,
            words == (n + 1) / 2,
            i <= words,
            acc as int == sum_words_upto(data@, i as int),
            acc <= i * 0xFFFF,
        decreases words - i,
    {
        proof {
            lemma_word_at_bounds(data@, i as int);
        }
        let hi: u64 = data[2 * i] as u64;
        let w: u64 = if 2 * i + 1 < n {
            hi * 256 + data[2 * i + 1] as u64
        } else {
            hi * 256
        };
        acc = acc + w;
        i = i + 1;
    }
    proof {
        lemma_sum_words_upto_bounds(data@, words as int);
    }
    while acc >= 0x10000
        invariant
            fold_carries(acc as int) == fold_carries(sum_words(data@)),
        decreases acc,
    {
        acc = acc % 0x10000 + acc / 0x10000;
    }
    proof {
        lemma_sum_words_upto_bounds(data@, num_words(data@));
        lemma_fold_carries_range(sum_words(data@));
    }
    (0xFFFF - acc) as u16
}

} // verus!
