//! Facts about numerals and words: what the renderers write reads back.

use crate::entity::ParseError;
use crate::text::{
    dec_str, digit_char, digit_value, digits_end, hex_str, is_digit_in, is_word_char, number_at, value_in,
    word_end,
};
use vstd::prelude::*;

verus! {

pub proof fn lemma_digit_char(d: nat, radix: nat)
    requires
        d < radix,
        radix == 10 || radix == 16,
    ensures
        is_digit_in(digit_char(d), radix),
        digit_value(digit_char(d)) == d,
{
}

/// The run of characters from `i` to `j` are all base-`radix` digits and
/// the run stops at `j`.
pub proof fn lemma_digits_end_at(s: Seq<char>, i: int, j: int, radix: nat)
    requires
        0 <= i <= j <= s.len(),
        forall|k: int| i <= k < j ==> is_digit_in(#[trigger] s[k], radix),
        j == s.len() || !is_digit_in(s[j], radix),
    ensures
        digits_end(s, i, radix) == j,
    decreases j - i,
{
    if i < j {
        lemma_digits_end_at(s, i + 1, j, radix);
    }
}

pub proof fn lemma_dec_str(n: nat)
    ensures
        forall|k: int| 0 <= k < dec_str(n).len() ==> is_digit_in(#[trigger] dec_str(n)[k], 10),
        value_in(dec_str(n), 10) == n,
        dec_str(n).len() >= 1,
    decreases n,
{
    if n < 10 {
        lemma_digit_char(n, 10);
        assert(dec_str(n).drop_last() =~= Seq::<char>::empty());
        assert(value_in(Seq::<char>::empty(), 10) == 0);
        assert(dec_str(n).last() == digit_char(n));
    } else {
        lemma_dec_str(n / 10);
        lemma_digit_char(n % 10, 10);
        assert(dec_str(n).drop_last() =~= dec_str(n / 10));
        assert(dec_str(n).last() == digit_char(n % 10));
        assert(value_in(dec_str(n), 10) == value_in(dec_str(n / 10), 10) * 10 + n % 10);
        assert((n / 10) * 10 + n % 10 == n);
    }
}

pub proof fn lemma_hex_str(n: nat)
    ensures
        forall|k: int| 0 <= k < hex_str(n).len() ==> is_digit_in(#[trigger] hex_str(n)[k], 16),
        value_in(hex_str(n), 16) == n,
        hex_str(n).len() >= 1,
    decreases n,
{
    if n < 16 {
        lemma_digit_char(n, 16);
        assert(hex_str(n).drop_last() =~= Seq::<char>::empty());
        assert(value_in(Seq::<char>::empty(), 16) == 0);
        assert(hex_str(n).last() == digit_char(n));
    } else {
        lemma_hex_str(n / 16);
        lemma_digit_char(n % 16, 16);
        assert(hex_str(n).drop_last() =~= hex_str(n / 16));
        assert(hex_str(n).last() == digit_char(n % 16));
        assert(value_in(hex_str(n), 16) == value_in(hex_str(n / 16), 16) * 16 + n % 16);
        assert((n / 16) * 16 + n % 16 == n);
    }
}

/// A decimal numeral at `i` that no digit follows reads back as its value.
pub proof fn lemma_dec_round(s: Seq<char>, i: int, n: nat, max: nat)
    requires
        n <= max,
        0 <= i,
        i + dec_str(n).len() <= s.len(),
        s.subrange(i, i + dec_str(n).len()) == dec_str(n),
        i + dec_str(n).len() == s.len() || !is_digit_in(s[i + dec_str(n).len()], 10),
    ensures
        number_at(s, i, 10, max) == Ok::<(nat, int), ParseError>((n, i + dec_str(n).len())),
{
    let j = i + dec_str(n).len();
    lemma_dec_str(n);
    assert forall|k: int| i <= k < j implies is_digit_in(#[trigger] s[k], 10) by {
        assert(s[k] == s.subrange(i, j)[k - i]);
    }
    lemma_digits_end_at(s, i, j, 10);
}

/// A hexadecimal numeral at `i` that no digit follows reads back as its value.
pub proof fn lemma_hex_round(s: Seq<char>, i: int, n: nat, max: nat)
    requires
        n <= max,
        0 <= i,
        i + hex_str(n).len() <= s.len(),
        s.subrange(i, i + hex_str(n).len()) == hex_str(n),
        i + hex_str(n).len() == s.len() || !is_digit_in(s[i + hex_str(n).len()], 16),
    ensures
        number_at(s, i, 16, max) == Ok::<(nat, int), ParseError>((n, i + hex_str(n).len())),
{
    let j = i + hex_str(n).len();
    lemma_hex_str(n);
    assert forall|k: int| i <= k < j implies is_digit_in(#[trigger] s[k], 16) by {
        assert(s[k] == s.subrange(i, j)[k - i]);
    }
    lemma_digits_end_at(s, i, j, 16);
}

/// Where `s` holds `w` at `i`, it holds each part of `w` at the matching place.
pub proof fn lemma_part(s: Seq<char>, i: int, w: Seq<char>, off: int, p: Seq<char>)
    requires
        0 <= i,
        i + w.len() <= s.len(),
        s.subrange(i, i + w.len()) == w,
        0 <= off,
        off + p.len() <= w.len(),
        w.subrange(off, off + p.len()) == p,
    ensures
        s.subrange(i + off, i + off + p.len()) == p,
        forall|k: int| 0 <= k < p.len() ==> s[i + off + k] == #[trigger] p[k],
{
    assert forall|k: int| 0 <= k < p.len() implies s[i + off + k] == #[trigger] p[k] by {
        assert(s.subrange(i, i + w.len())[off + k] == w[off + k]);
        assert(w.subrange(off, off + p.len())[k] == p[k]);
    }
    assert(s.subrange(i + off, i + off + p.len()) =~= p);
}

pub proof fn lemma_word_end_at(s: Seq<char>, i: int, j: int)
    requires
        0 <= i <= j <= s.len(),
        forall|k: int| i <= k < j ==> is_word_char(#[trigger] s[k]),
        j == s.len() || !is_word_char(s[j]),
    ensures
        word_end(s, i) == j,
    decreases j - i,
{
    if i < j {
        lemma_word_end_at(s, i + 1, j);
    }
}


/// Every character of the run at `i` is a word character, and the run
/// stops at the end or at one that is not.
pub proof fn lemma_word_end_props(s: Seq<char>, i: int)
    requires
        0 <= i <= s.len(),
    ensures
        i <= word_end(s, i) <= s.len(),
        forall|k: int| i <= k < word_end(s, i) ==> is_word_char(#[trigger] s[k]),
        word_end(s, i) == s.len() || !is_word_char(s[word_end(s, i)]),
    decreases s.len() - i,
{
    if i < s.len() && is_word_char(s[i]) {
        lemma_word_end_props(s, i + 1);
    }
}

} // verus!
