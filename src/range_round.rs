//! A canonical range reads back as the range it was written from.

use crate::entity::{ParseError, Range};
use crate::numeral::{lemma_dec_round, lemma_dec_str, lemma_part};
use crate::scan::{opt_number_at, range_at, span_at};
use crate::text::{dec_str, digits_end};
use vstd::prelude::*;

verus! {

/// The character that follows a component may start the next one: a dot,
/// an `@`, or nothing.
pub open spec fn ends_component(s: Seq<char>, j: int) -> bool {
    j == s.len() || (0 <= j < s.len() && (s[j] == '.' || s[j] == '@'))
}

#[verifier::rlimit(60)]
pub proof fn lemma_span_one(s: Seq<char>, i: int, a: nat, open: char, close: char, max: nat)
    requires
        a <= max,
        0 <= i,
        close == ']' || close == '}',
        ({
            let w = seq![open] + dec_str(a) + seq![close];
            i + w.len() <= s.len() && s.subrange(i, i + w.len()) == w
        }),
    ensures
        span_at(s, i + 1, close, max) == Ok::<(Option<nat>, bool, Option<nat>, int), ParseError>(
            (Some(a), false, None, i + dec_str(a).len() + 2),
        ),
{
    let w = seq![open] + dec_str(a) + seq![close];
    let da = dec_str(a);
    lemma_dec_str(a);
    assert(w.subrange(0, w.len() as int) =~= w);
    lemma_part(s, i, w, 0, w);
    assert(w.subrange(1, 1 + da.len() as int) =~= da);
    lemma_part(s, i, w, 1, da);
    assert(s[i + 1 + da.len()] == w[1 + da.len() as int]);
    lemma_dec_round(s, i + 1, a, max);
    assert(digits_end(s, i + 1, 10) != i + 1);
}

#[verifier::rlimit(40)]
pub proof fn lemma_span_two(s: Seq<char>, i: int, a: nat, e: nat, open: char, close: char, max: nat)
    requires
        a <= max,
        e <= max,
        0 <= i,
        close == ']' || close == '}',
        ({
            let w = seq![open] + dec_str(a) + seq![':'] + dec_str(e) + seq![close];
            i + w.len() <= s.len() && s.subrange(i, i + w.len()) == w
        }),
    ensures
        span_at(s, i + 1, close, max) == Ok::<(Option<nat>, bool, Option<nat>, int), ParseError>(
            (Some(a), true, Some(e), i + dec_str(a).len() + dec_str(e).len() + 3),
        ),
{
    let w = seq![open] + dec_str(a) + seq![':'] + dec_str(e) + seq![close];
    let da = dec_str(a);
    let de = dec_str(e);
    lemma_dec_str(a);
    lemma_dec_str(e);
    assert(w.subrange(0, w.len() as int) =~= w);
    lemma_part(s, i, w, 0, w);
    assert(w.subrange(1, 1 + da.len() as int) =~= da);
    lemma_part(s, i, w, 1, da);
    assert(w.subrange(2 + da.len() as int, 2 + da.len() + de.len() as int) =~= de);
    lemma_part(s, i, w, 2 + da.len() as int, de);
    assert(s[i + 1 + da.len()] == w[1 + da.len() as int]);
    assert(s[i + 2 + da.len() + de.len()] == w[2 + da.len() + de.len() as int]);
    lemma_dec_round(s, i + 1, a, max);
    lemma_dec_round(s, i + 2 + da.len(), e, max);
    assert(digits_end(s, i + 1, 10) != i + 1);
    assert(digits_end(s, i + 2 + da.len(), 10) != i + 2 + da.len());
    assert(opt_number_at(s, i + 1, max) == Ok::<(Option<nat>, int), ParseError>((Some(a), i + 1 + da.len())));
    assert(opt_number_at(s, i + 2 + da.len(), max) == Ok::<(Option<nat>, int), ParseError>(
        (Some(e), i + 2 + da.len() + de.len()),
    ));
}

#[verifier::rlimit(60)]
pub proof fn lemma_span_open(s: Seq<char>, i: int, a: nat, open: char, close: char, max: nat)
    requires
        a <= max,
        0 <= i,
        close == ']' || close == '}',
        ({
            let w = seq![open] + dec_str(a) + seq![':', close];
            i + w.len() <= s.len() && s.subrange(i, i + w.len()) == w
        }),
    ensures
        span_at(s, i + 1, close, max) == Ok::<(Option<nat>, bool, Option<nat>, int), ParseError>(
            (Some(a), true, None, i + dec_str(a).len() + 3),
        ),
{
    let w = seq![open] + dec_str(a) + seq![':', close];
    let da = dec_str(a);
    lemma_dec_str(a);
    assert(w.subrange(0, w.len() as int) =~= w);
    lemma_part(s, i, w, 0, w);
    assert(w.subrange(1, 1 + da.len() as int) =~= da);
    lemma_part(s, i, w, 1, da);
    assert(s[i + 1 + da.len()] == w[1 + da.len() as int]);
    assert(s[i + 2 + da.len()] == w[2 + da.len() as int]);
    lemma_dec_round(s, i + 1, a, max);
    assert(digits_end(s, i + 1, 10) != i + 1);
    assert(digits_end(s, i + 2 + da.len(), 10) == i + 2 + da.len());
}

/// The canonical text of a range, followed by a dot, an `@` or nothing,
/// reads back as that range.
pub proof fn lemma_range_round(s: Seq<char>, i: int, r: Range)
    requires
        0 <= i,
        i + r.spec_canonical().len() <= s.len(),
        s.subrange(i, i + r.spec_canonical().len()) == r.spec_canonical(),
        ends_component(s, i + r.spec_canonical().len()),
    ensures
        range_at(s, i) == Ok::<(Range, int), ParseError>((r, i + r.spec_canonical().len())),
{
    let w = r.spec_canonical();
    if w.len() > 0 {
        assert(s[i] == s.subrange(i, i + w.len())[0]);
    }
    match r {
        Range::Full => {
            assert(s[i + 1] == s.subrange(i, i + w.len())[1]);
            assert(digits_end(s, i + 1, 10) == i + 1);
        },
        Range::Array { start_index: a, end_index: Some(e) } => {
            if a == 0 && e == 0 {
            } else if a == e {
                lemma_span_one(s, i, a as nat, '[', ']', 0xffff);
            } else {
                lemma_span_two(s, i, a as nat, e as nat, '[', ']', 0xffff);
            }
        },
        Range::Array { start_index: a, end_index: None } => {
            assert(w =~= seq!['['] + dec_str(a as nat) + seq![':', ']']);
            lemma_span_open(s, i, a as nat, '[', ']', 0xffff);
        },
        Range::Raw { offset: a, length: Some(e) } => {
            if e == 1 {
                lemma_span_one(s, i, a as nat, '{', '}', 0xffff_ffff);
            } else {
                lemma_span_two(s, i, a as nat, e as nat, '{', '}', 0xffff_ffff);
            }
        },
        Range::Raw { offset: a, length: None } => {
            assert(w =~= seq!['{'] + dec_str(a as nat) + seq![':', '}']);
            lemma_span_open(s, i, a as nat, '{', '}', 0xffff_ffff);
        },
    }
}

} // verus!
