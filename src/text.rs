//! Character classes, word and number scanning, and decimal / hexadecimal
//! rendering, shared by the scanners and the renderers.

use crate::entity::{ErrorKind, ParseError};
use vstd::prelude::*;
use vstd::string::*;

verus! {

/// Characters that may appear in a name or a word of the vocabulary.
pub open spec fn is_word_char(c: char) -> bool {
    ('A' <= c && c <= 'Z') || ('a' <= c && c <= 'z') || ('0' <= c && c <= '9') || c == '_'
}

/// Case-insensitive equality of one input character with one upper-case
/// vocabulary character.
pub open spec fn ci_char_eq(a: char, b: char) -> bool {
    a == b || ('a' <= a && a <= 'z' && (a as u32) == (b as u32) + 32)
}

/// `tok` spells the upper-case vocabulary token `lit`, ignoring case.
pub open spec fn ci_eq(tok: Seq<char>, lit: Seq<char>) -> bool {
    tok.len() == lit.len() && forall|k: int| 0 <= k < tok.len() ==> ci_char_eq(#[trigger] tok[k], lit[k])
}

/// End of the maximal run of word characters starting at `i`.
pub open spec fn word_end(s: Seq<char>, i: int) -> int
    decreases s.len() - i,
{
    if 0 <= i < s.len() && is_word_char(s[i]) {
        word_end(s, i + 1)
    } else {
        i
    }
}

pub open spec fn is_digit_in(c: char, radix: nat) -> bool {
    ('0' <= c && c <= '9') || (radix == 16 && (('A' <= c && c <= 'F') || ('a' <= c && c <= 'f')))
}

pub open spec fn digit_value(c: char) -> nat {
    if '0' <= c && c <= '9' {
        (c as u32 - '0' as u32) as nat
    } else if 'A' <= c && c <= 'F' {
        (c as u32 - 'A' as u32 + 10) as nat
    } else if 'a' <= c && c <= 'f' {
        (c as u32 - 'a' as u32 + 10) as nat
    } else {
        0
    }
}

/// The number that the digit string `d` denotes in base `radix`.
pub open spec fn value_in(d: Seq<char>, radix: nat) -> nat
    decreases d.len(),
{
    if d.len() == 0 {
        0
    } else {
        value_in(d.drop_last(), radix) * radix + digit_value(d.last())
    }
}

/// End of the maximal run of base-`radix` digits starting at `i`.
pub open spec fn digits_end(s: Seq<char>, i: int, radix: nat) -> int
    decreases s.len() - i,
{
    if 0 <= i < s.len() && is_digit_in(s[i], radix) {
        digits_end(s, i + 1, radix)
    } else {
        i
    }
}

/// The upper-case digit character of `d < 16`.
pub open spec fn digit_char(d: nat) -> char {
    if d == 0 {
        '0'
    } else if d == 1 {
        '1'
    } else if d == 2 {
        '2'
    } else if d == 3 {
        '3'
    } else if d == 4 {
        '4'
    } else if d == 5 {
        '5'
    } else if d == 6 {
        '6'
    } else if d == 7 {
        '7'
    } else if d == 8 {
        '8'
    } else if d == 9 {
        '9'
    } else if d == 10 {
        'A'
    } else if d == 11 {
        'B'
    } else if d == 12 {
        'C'
    } else if d == 13 {
        'D'
    } else if d == 14 {
        'E'
    } else {
        'F'
    }
}

/// `n` in decimal, without leading zeros (zero is written `0`).
pub open spec fn dec_str(n: nat) -> Seq<char>
    decreases n,
{
    if n < 10 {
        seq![digit_char(n)]
    } else {
        dec_str(n / 10) + seq![digit_char(n % 10)]
    }
}

/// `n` in upper-case hexadecimal, without leading zeros.
pub open spec fn hex_str(n: nat) -> Seq<char>
    decreases n,
{
    if n < 16 {
        seq![digit_char(n)]
    } else {
        hex_str(n / 16) + seq![digit_char(n % 16)]
    }
}

pub fn is_word_char_exec(c: char) -> (r: bool)
    ensures
        r == is_word_char(c),
{
    ('A' <= c && c <= 'Z') || ('a' <= c && c <= 'z') || ('0' <= c && c <= '9') || c == '_'
}

pub fn ci_char_eq_exec(a: char, b: char) -> (r: bool)
    ensures
        r == ci_char_eq(a, b),
{
    a == b || ('a' <= a && a <= 'z' && (a as u32) - 32 == (b as u32))
}

/// Whether `s[from..to]` spells `lit`, ignoring the case of `s`.
pub fn token_is(s: &Vec<char>, from: usize, to: usize, lit: &str) -> (r: bool)
    requires
        from <= to <= s@.len(),
    ensures
        r == ci_eq(s@.subrange(from as int, to as int), lit@),
{
    let n = lit.unicode_len();
    if to - from != n {
        return false;
    }
    let mut k: usize = 0;
    while k < n
        invariant
            from <= to <= s@.len(),
            n == lit@.len(),
            to - from == n,
            k <= n,
            forall|m: int| 0 <= m < k ==> ci_char_eq(s@[from + m], lit@[m]),
        decreases n - k,
    {
        if !ci_char_eq_exec(s[from + k], lit.get_char(k)) {
            assert(!ci_char_eq(s@.subrange(from as int, to as int)[k as int], lit@[k as int]));
            return false;
        }
        k = k + 1;
    }
    assert(s@.subrange(from as int, to as int).len() == n);
    true
}

/// Position just past the run of word characters that starts at `i`.
pub fn scan_word(s: &Vec<char>, i: usize) -> (j: usize)
    requires
        i <= s@.len(),
    ensures
        j as int == word_end(s@, i as int),
        i <= j <= s@.len(),
{
    let mut j = i;
    while j < s.len() && is_word_char_exec(s[j])
        invariant
            i <= j <= s@.len(),
            word_end(s@, i as int) == word_end(s@, j as int),
        decreases s@.len() - j,
    {
        j = j + 1;
    }
    j
}

/// The upper-case digit of `d` as text.
fn digit_text(d: u32) -> (r: &'static str)
    requires
        d < 16,
    ensures
        r@ == seq![digit_char(d as nat)],
{
    match d {
        0 => {
            proof {
                reveal_strlit("0");
            }
            "0"
        },
        1 => {
            proof {
                reveal_strlit("1");
            }
            "1"
        },
        2 => {
            proof {
                reveal_strlit("2");
            }
            "2"
        },
        3 => {
            proof {
                reveal_strlit("3");
            }
            "3"
        },
        4 => {
            proof {
                reveal_strlit("4");
            }
            "4"
        },
        5 => {
            proof {
                reveal_strlit("5");
            }
            "5"
        },
        6 => {
            proof {
                reveal_strlit("6");
            }
            "6"
        },
        7 => {
            proof {
                reveal_strlit("7");
            }
            "7"
        },
        8 => {
            proof {
                reveal_strlit("8");
            }
            "8"
        },
        9 => {
            proof {
                reveal_strlit("9");
            }
            "9"
        },
        10 => {
            proof {
                reveal_strlit("A");
            }
            "A"
        },
        11 => {
            proof {
                reveal_strlit("B");
            }
            "B"
        },
        12 => {
            proof {
                reveal_strlit("C");
            }
            "C"
        },
        13 => {
            proof {
                reveal_strlit("D");
            }
            "D"
        },
        14 => {
            proof {
                reveal_strlit("E");
            }
            "E"
        },
        _ => {
            proof {
                reveal_strlit("F");
            }
            "F"
        },
    }
}

/// Appends `n` in decimal to `out`.
pub fn push_dec(out: &mut String, n: u32)
    ensures
        final(out)@ == old(out)@ + dec_str(n as nat),
    decreases n,
{
    if n >= 10 {
        push_dec(out, n / 10);
    }
    out.append(digit_text(n % 10));
    proof {
        assert(old(out)@ + dec_str(n as nat) =~= (if n >= 10 {
            old(out)@ + dec_str((n / 10) as nat)
        } else {
            old(out)@
        }) + seq![digit_char((n % 10) as nat)]);
    }
}

/// Appends `n` in upper-case hexadecimal to `out`.
pub fn push_hex(out: &mut String, n: u32)
    ensures
        final(out)@ == old(out)@ + hex_str(n as nat),
    decreases n,
{
    if n >= 16 {
        push_hex(out, n / 16);
    }
    out.append(digit_text(n % 16));
    proof {
        assert(old(out)@ + hex_str(n as nat) =~= (if n >= 16 {
            old(out)@ + hex_str((n / 16) as nat)
        } else {
            old(out)@
        }) + seq![digit_char((n % 16) as nat)]);
    }
}

/// The number of base `radix` that starts at `i`: a non-empty run of
/// digits whose value is at most `max`, and the position after it.
pub open spec fn number_at(s: Seq<char>, i: int, radix: nat, max: nat) -> Result<(nat, int), ParseError> {
    let j = digits_end(s, i, radix);
    if j == i || value_in(s.subrange(i, j), radix) > max {
        Err(ParseError { kind: ErrorKind::MalformedNumber, position: i as usize })
    } else {
        Ok((value_in(s.subrange(i, j), radix), j))
    }
}

pub fn is_digit_exec(c: char, radix: u64) -> (r: bool)
    ensures
        r == is_digit_in(c, radix as nat),
{
    ('0' <= c && c <= '9') || (radix == 16 && (('A' <= c && c <= 'F') || ('a' <= c && c <= 'f')))
}

fn digit_value_exec(c: char) -> (r: u64)
    ensures
        r == digit_value(c),
        r < 16,
{
    if '0' <= c && c <= '9' {
        (c as u32 - '0' as u32) as u64
    } else if 'A' <= c && c <= 'F' {
        (c as u32 - 'A' as u32 + 10) as u64
    } else if 'a' <= c && c <= 'f' {
        (c as u32 - 'a' as u32 + 10) as u64
    } else {
        0
    }
}

proof fn lemma_value_step(s: Seq<char>, i: int, j: int, radix: nat)
    requires
        0 <= i <= j < s.len(),
    ensures
        value_in(s.subrange(i, j + 1), radix) == value_in(s.subrange(i, j), radix) * radix + digit_value(s[j]),
{
    assert(s.subrange(i, j + 1).drop_last() =~= s.subrange(i, j));
}

/// Scans a number of base `radix` (10 or 16) at `i`, bounded by `max`.
pub fn scan_number(s: &Vec<char>, i: usize, radix: u64, max: u64) -> (r: Result<(u64, usize), ParseError>)
    requires
        i <= s@.len(),
        radix == 10 || radix == 16,
        max <= 0xffff_ffff,
    ensures
        match r {
            Ok((v, j)) => number_at(s@, i as int, radix as nat, max as nat) == Ok::<(nat, int), ParseError>((v as nat, j as int)),
            Err(e) => number_at(s@, i as int, radix as nat, max as nat) == Err::<(nat, int), ParseError>(e),
        },
        r matches Ok((v, j)) ==> i < j <= s@.len() && v <= max,
{
    let mut j = i;
    let mut v: u64 = 0;
    let mut over = false;
    while j < s.len() && is_digit_exec(s[j], radix)
        invariant
            i <= j <= s@.len(),
            radix == 10 || radix == 16,
            max <= 0xffff_ffff,
            digits_end(s@, i as int, radix as nat) == digits_end(s@, j as int, radix as nat),
            over ==> value_in(s@.subrange(i as int, j as int), radix as nat) > max,
            !over ==> v == value_in(s@.subrange(i as int, j as int), radix as nat) && v <= max,
        decreases s@.len() - j,
    {
        let d = digit_value_exec(s[j]);
        proof {
            lemma_value_step(s@, i as int, j as int, radix as nat);
            let p = value_in(s@.subrange(i as int, j as int), radix as nat);
            assert(p * radix >= p) by (nonlinear_arith)
                requires radix >= 10;
        }
        if !over {
            assert(v * radix <= 0xffff_ffff * 16) by (nonlinear_arith)
                requires v <= 0xffff_ffff, radix <= 16;
            let nv = v * radix + d;
            if nv > max {
                over = true;
            } else {
                v = nv;
            }
        }
        j = j + 1;
    }
    if j == i || over {
        Err(ParseError { kind: ErrorKind::MalformedNumber, position: i })
    } else {
        Ok((v, j))
    }
}

} // verus!
