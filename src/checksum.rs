//! The 16-bit one's-complement checksum of RFC 1071: the one's complement
//! of the one's-complement sum of the words.
//!
//! One's-complement addition is addition modulo `0xFFFF` in which zero has
//! two forms, `0x0000` and `0xFFFF`. Folding a sequence of words from zero
//! gives `0` when every word is zero and otherwise the value in
//! `1..=0xFFFF` that is congruent to their total, which is what makes the
//! sum independent of the order of the words.
use vstd::prelude::*;
use vstd::arithmetic::div_mod::{lemma_add_mod_noop_right, lemma_mod_sub_multiples_vanish, lemma_small_mod};

verus! {

/// One's-complement addition of two 16-bit values: a carry out of the top
/// bit is added back into the bottom.
pub open spec fn ones_add(a: int, b: int) -> int {
    if a + b > 0xFFFF {
        a + b - 0xFFFF
    } else {
        a + b
    }
}

/// The one's-complement sum of `words`, added from the first to the last.
pub open spec fn ones_sum(words: Seq<u16>) -> int
    decreases words.len(),
{
    if words.len() == 0 {
        0
    } else {
        ones_add(ones_sum(words.drop_last()), words.last() as int)
    }
}

/// The checksum of `words`: the one's complement of their one's-complement
/// sum.
pub open spec fn checksum_of(words: Seq<u16>) -> int {
    0xFFFF - ones_sum(words)
}

/// The ordinary sum of `words`.
pub open spec fn word_total(words: Seq<u16>) -> int
    decreases words.len(),
{
    if words.len() == 0 {
        0
    } else {
        word_total(words.drop_last()) + words.last()
    }
}

/// The one's-complement value that a fold from zero reaches for a total `t`.
pub open spec fn folded(t: int) -> int {
    if t == 0 {
        0
    } else {
        ((t - 1) % 0xFFFF) + 1
    }
}

/// Computes the checksum of `numbers`: the words are added with
/// end-around carry and the sum is complemented.
pub fn calculate_ones_complement_sum(numbers: Vec<u16>) -> (r: u16)
    ensures
        r == checksum_of(numbers@),
{
    let mut val: u16 = 0;
    let mut i: usize = 0;
    while i < numbers.len()
        invariant
            0 <= i <= numbers@.len(),
            val == ones_sum(numbers@.subrange(0, i as int)),
        decreases numbers@.len() - i,
    {
        let t: u32 = val as u32 + numbers[i] as u32;
        val = if t > 0xFFFF {
            (t - 0xFFFF) as u16
        } else {
            t as u16
        };
        proof {
            let s = numbers@.subrange(0, i + 1);
            assert(s.drop_last() == numbers@.subrange(0, i as int));
        }
        i = i + 1;
    }
    assert(numbers@.subrange(0, numbers@.len() as int) == numbers@);
    0xFFFF - val
}

proof fn lemma_folded_step(t: int, x: int)
    requires
        t >= 0,
        0 <= x <= 0xFFFF,
    ensures
        ones_add(folded(t), x) == folded(t + x),
{
    if t == 0 {
        if x > 0 {
            lemma_small_mod((x - 1) as nat, 0xFFFF);
        }
    } else {
        let r = (t - 1) % 0xFFFF;
        assert(0 <= r < 0xFFFF);
        lemma_add_mod_noop_right(x, t - 1, 0xFFFF);
        assert((t + x - 1) % 0xFFFF == (r + x) % 0xFFFF);
        if r + x < 0xFFFF {
            lemma_small_mod((r + x) as nat, 0xFFFF);
        } else {
            lemma_mod_sub_multiples_vanish(r + x, 0xFFFF);
            lemma_small_mod((r + x - 0xFFFF) as nat, 0xFFFF);
        }
    }
}

/// The one's-complement sum of words is the folded value of their total.
pub proof fn lemma_ones_sum_closed(words: Seq<u16>)
    ensures
        ones_sum(words) == folded(word_total(words)),
        word_total(words) >= 0,
    decreases words.len(),
{
    if words.len() > 0 {
        lemma_ones_sum_closed(words.drop_last());
        lemma_folded_step(word_total(words.drop_last()), words.last() as int);
    }
}

proof fn lemma_word_total_append(a: Seq<u16>, b: Seq<u16>)
    ensures
        word_total(a + b) == word_total(a) + word_total(b),
    decreases b.len(),
{
    if b.len() == 0 {
        assert(a + b == a);
    } else {
        lemma_word_total_append(a, b.drop_last());
        assert((a + b).drop_last() == a + b.drop_last());
    }
}

proof fn lemma_word_total_remove(s: Seq<u16>, i: int)
    requires
        0 <= i < s.len(),
    ensures
        word_total(s) == word_total(s.remove(i)) + s[i],
{
    let l = s.subrange(0, i);
    let r = s.subrange(i + 1, s.len() as int);
    assert(s == l + seq![s[i]] + r);
    assert(s.remove(i) == l + r);
    lemma_word_total_append(l + seq![s[i]], r);
    lemma_word_total_append(l, seq![s[i]]);
    lemma_word_total_append(l, r);
    assert(seq![s[i]].drop_last() == Seq::<u16>::empty());
    assert(word_total(Seq::<u16>::empty()) == 0);
    assert(word_total(seq![s[i]]) == s[i]);
}

/// Words with the same multiset have the same total.
proof fn lemma_word_total_reorder(a: Seq<u16>, b: Seq<u16>)
    requires
        a.to_multiset() == b.to_multiset(),
    ensures
        word_total(a) == word_total(b),
        a.len() == b.len(),
    decreases a.len(),
{
    broadcast use vstd::seq_lib::group_to_multiset_ensures;

    vstd::seq_lib::to_multiset_len(a);
    vstd::seq_lib::to_multiset_len(b);
    if a.len() > 0 {
        let x = a.last();
        assert(a == a.drop_last().push(x));
        vstd::seq_lib::to_multiset_build(a.drop_last(), x);
        vstd::seq_lib::to_multiset_contains(b, x);
        assert(b.to_multiset().count(x) > 0);
        let i = choose|i: int| 0 <= i < b.len() && b[i] == x;
        vstd::seq_lib::to_multiset_remove(b, i);
        assert(a.drop_last().to_multiset() =~= b.remove(i).to_multiset());
        lemma_word_total_reorder(a.drop_last(), b.remove(i));
        lemma_word_total_remove(b, i);
    }
}

/// The checksum does not depend on the order of the words: any two word
/// sequences that are reorderings of one another have the same checksum,
/// and the same one's-complement sum.
pub proof fn lemma_checksum_reorder(a: Seq<u16>, b: Seq<u16>)
    requires
        a.to_multiset() == b.to_multiset(),
    ensures
        checksum_of(a) == checksum_of(b),
        ones_sum(a) == ones_sum(b),
{
    lemma_word_total_reorder(a, b);
    lemma_ones_sum_closed(a);
    lemma_ones_sum_closed(b);
}

/// Each one's-complement sum is a 16-bit value.
pub proof fn lemma_ones_sum_bound(words: Seq<u16>)
    ensures
        0 <= ones_sum(words) <= 0xFFFF,
    decreases words.len(),
{
    if words.len() > 0 {
        lemma_ones_sum_bound(words.drop_last());
    }
}

/// Adding the checksum to the one's-complement sum of the words it was
/// computed over gives `0xFFFF`.
pub proof fn lemma_checksum_complements_sum(words: Seq<u16>)
    ensures
        0 <= checksum_of(words) <= 0xFFFF,
        ones_add(ones_sum(words), checksum_of(words)) == 0xFFFF,
{
    lemma_ones_sum_bound(words);
}

/// Writing the checksum into a word that was zero while it was computed
/// makes the one's-complement sum of the words `0xFFFF`: this is how a
/// receiver checks it.
pub proof fn lemma_checksum_in_place(words: Seq<u16>, k: int)
    requires
        0 <= k < words.len(),
        words[k] == 0,
    ensures
        ones_sum(words.update(k, checksum_of(words) as u16)) == 0xFFFF,
{
    let c = checksum_of(words);
    lemma_checksum_complements_sum(words);
    let filled = words.update(k, c as u16);
    broadcast use vstd::seq_lib::group_to_multiset_ensures;

    vstd::seq_lib::to_multiset_build(words, c as u16);
    vstd::seq_lib::to_multiset_build(filled, 0u16);
    vstd::seq_lib::to_multiset_update(words, k, c as u16);
    assert(filled.push(0u16).to_multiset() =~= words.push(c as u16).to_multiset());
    lemma_checksum_reorder(filled.push(0u16), words.push(c as u16));
    assert(filled.push(0u16).drop_last() == filled);
    assert(words.push(c as u16).drop_last() == words);
    lemma_ones_sum_bound(filled);
}

} // verus!
