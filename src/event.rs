//! The scanner for an event: the `@` expression that ends a request.

use crate::entity::{ClockType, ErrorKind, Event, ParseError, StateOp};
use crate::scan::{agrees, perr};
use crate::text::{ci_char_eq, ci_char_eq_exec, ci_eq, number_at, scan_number, scan_word, token_is, word_end};
use vstd::prelude::*;

verus! {

pub open spec fn is_letter(c: char) -> bool {
    ('A' <= c && c <= 'Z') || ('a' <= c && c <= 'z')
}

pub open spec fn comma_at(s: Seq<char>, i: int) -> bool {
    0 <= i < s.len() && s[i] == ','
}

/// `v` units of `f` microseconds, where that fits in 32 bits.
pub open spec fn scaled(v: nat, f: nat, j: int, i: int) -> Result<(nat, int), ParseError> {
    if v * f > 0xffff_ffff {
        Err(perr(ErrorKind::MalformedNumber, i))
    } else {
        Ok((v * f, j))
    }
}

/// A duration at `i`, in microseconds: a number and an optional unit letter,
/// `S` seconds, `M` milliseconds, `U` microseconds, `K` ticks of 10
/// microseconds, `H` a rate in Hertz; without a letter, milliseconds.
pub open spec fn delay_at(s: Seq<char>, i: int) -> Result<(nat, int), ParseError> {
    match number_at(s, i, 10, 0xffff_ffff) {
        Err(e) => Err(e),
        Ok((v, j)) => {
            if 0 <= j < s.len() && is_letter(s[j]) {
                let u = s[j];
                if ci_char_eq(u, 'S') {
                    scaled(v, 1_000_000, j + 1, i)
                } else if ci_char_eq(u, 'M') {
                    scaled(v, 1000, j + 1, i)
                } else if ci_char_eq(u, 'U') {
                    Ok((v, j + 1))
                } else if ci_char_eq(u, 'K') {
                    scaled(v, 10, j + 1, i)
                } else if ci_char_eq(u, 'H') {
                    if v == 0 {
                        Err(perr(ErrorKind::MalformedNumber, i))
                    } else {
                        Ok((1_000_000nat / v, j + 1))
                    }
                } else {
                    Err(perr(ErrorKind::UnknownToken, j))
                }
            } else {
                scaled(v, 1000, j, i)
            }
        },
    }
}

/// A truth value at `i`: the word `TRUE`, `T`, `FALSE` or `F`, in any case.
pub open spec fn bool_at(s: Seq<char>, i: int) -> Result<(bool, int), ParseError> {
    let j = word_end(s, i);
    let w = s.subrange(i, j);
    if ci_eq(w, "TRUE"@) || ci_eq(w, "T"@) {
        Ok((true, j))
    } else if ci_eq(w, "FALSE"@) || ci_eq(w, "F"@) {
        Ok((false, j))
    } else {
        Err(perr(ErrorKind::UnknownToken, i))
    }
}

/// A clock letter at `i`: `H`, `S` or `E`, in any case.
pub open spec fn clock_at(s: Seq<char>, i: int) -> Result<(ClockType, int), ParseError> {
    if 0 <= i < s.len() && ci_char_eq(s[i], 'H') {
        Ok((ClockType::Hardware, i + 1))
    } else if 0 <= i < s.len() && ci_char_eq(s[i], 'S') {
        Ok((ClockType::Software, i + 1))
    } else if 0 <= i < s.len() && ci_char_eq(s[i], 'E') {
        Ok((ClockType::Either, i + 1))
    } else {
        Err(perr(ErrorKind::UnknownToken, i))
    }
}

/// A comparison symbol at `i`.
pub open spec fn op_at(s: Seq<char>, i: int) -> Result<(StateOp, int), ParseError> {
    let eq_next = 0 <= i + 1 < s.len() && s[i + 1] == '=';
    if !(0 <= i < s.len()) {
        Err(perr(ErrorKind::UnknownToken, i))
    } else if s[i] == '=' {
        Ok((StateOp::Eq, i + 1))
    } else if s[i] == '!' && eq_next {
        Ok((StateOp::NEq, i + 2))
    } else if s[i] == '>' {
        if eq_next {
            Ok((StateOp::GEq, i + 2))
        } else {
            Ok((StateOp::GT, i + 1))
        }
    } else if s[i] == '<' {
        if eq_next {
            Ok((StateOp::LEq, i + 2))
        } else {
            Ok((StateOp::LT, i + 1))
        }
    } else if s[i] == '*' {
        Ok((StateOp::All, i + 1))
    } else {
        Err(perr(ErrorKind::UnknownToken, i))
    }
}

/// A periodic event after its letter, at `k`: `,<delay>` and an optional
/// `,<bool>` (true where absent).
pub open spec fn periodic_at(s: Seq<char>, k: int, skip: bool) -> Result<(Event, int), ParseError> {
    if !comma_at(s, k) {
        Err(perr(ErrorKind::UnknownToken, k))
    } else {
        match delay_at(s, k + 1) {
            Err(e) => Err(e),
            Ok((d, j)) => {
                if comma_at(s, j) {
                    match bool_at(s, j + 1) {
                        Err(e) => Err(e),
                        Ok((b, m)) => Ok((Event::Periodic { period: d as u32, immediate: b, skip_dups: skip }, m)),
                    }
                } else {
                    Ok((Event::Periodic { period: d as u32, immediate: true, skip_dups: skip }, j))
                }
            },
        }
    }
}

/// A clock event after its letter, at `k`: `,<hex code>`, an optional
/// `,<clock>` (either where absent) and then an optional `,<delay>` (0
/// where absent).
pub open spec fn clock_event_at(s: Seq<char>, k: int) -> Result<(Event, int), ParseError> {
    if !comma_at(s, k) {
        Err(perr(ErrorKind::UnknownToken, k))
    } else {
        match number_at(s, k + 1, 16, 0xffff) {
            Err(e) => Err(e),
            Ok((code, j)) => {
                if !comma_at(s, j) {
                    Ok((Event::Clock { event: code as u16, clk_type: ClockType::Either, delay: 0 }, j))
                } else {
                    match clock_at(s, j + 1) {
                        Err(e) => Err(e),
                        Ok((c, m)) => {
                            if !comma_at(s, m) {
                                Ok((Event::Clock { event: code as u16, clk_type: c, delay: 0 }, m))
                            } else {
                                match delay_at(s, m + 1) {
                                    Err(e) => Err(e),
                                    Ok((d, n)) => Ok(
                                        (Event::Clock { event: code as u16, clk_type: c, delay: d as u32 }, n),
                                    ),
                                }
                            }
                        },
                    }
                }
            },
        }
    }
}

/// A state event after its letter, at `k`:
/// `,<device>,<value>,<delay>,<comparison>`.
pub open spec fn state_at(s: Seq<char>, k: int) -> Result<(Event, int), ParseError> {
    if !comma_at(s, k) {
        Err(perr(ErrorKind::UnknownToken, k))
    } else {
        match number_at(s, k + 1, 10, 0xffff_ffff) {
            Err(e) => Err(e),
            Ok((dev, a)) => if !comma_at(s, a) {
                Err(perr(ErrorKind::UnknownToken, a))
            } else {
                match number_at(s, a + 1, 10, 0xffff) {
                    Err(e) => Err(e),
                    Ok((val, b)) => if !comma_at(s, b) {
                        Err(perr(ErrorKind::UnknownToken, b))
                    } else {
                        match delay_at(s, b + 1) {
                            Err(e) => Err(e),
                            Ok((d, c)) => if !comma_at(s, c) {
                                Err(perr(ErrorKind::UnknownToken, c))
                            } else {
                                match op_at(s, c + 1) {
                                    Err(e) => Err(e),
                                    Ok((op, n)) => Ok(
                                        (
                                            Event::State {
                                                device: dev as u32,
                                                value: val as u16,
                                                delay: d as u32,
                                                expr: op,
                                            },
                                            n,
                                        ),
                                    ),
                                }
                            },
                        }
                    },
                }
            },
        }
    }
}

/// The event at `i`: `@` and a letter, `N` never, `I` immediate, `P` or `Q`
/// periodic (`Q` skips late deliveries), `E` clock, `S` state, in any case;
/// where no `@` stands there, the default event, consuming nothing.
pub open spec fn event_at(s: Seq<char>, i: int) -> Result<(Event, int), ParseError> {
    if !(0 <= i < s.len() && s[i] == '@') {
        Ok((Event::Default, i))
    } else if i + 1 >= s.len() {
        Err(perr(ErrorKind::UnknownToken, i + 1))
    } else {
        let c = s[i + 1];
        if ci_char_eq(c, 'N') {
            Ok((Event::Never, i + 2))
        } else if ci_char_eq(c, 'I') {
            Ok((Event::Immediate, i + 2))
        } else if ci_char_eq(c, 'P') || ci_char_eq(c, 'Q') {
            periodic_at(s, i + 2, ci_char_eq(c, 'Q'))
        } else if ci_char_eq(c, 'E') {
            clock_event_at(s, i + 2)
        } else if ci_char_eq(c, 'S') {
            state_at(s, i + 2)
        } else {
            Err(perr(ErrorKind::UnknownToken, i + 1))
        }
    }
}

fn is_letter_exec(c: char) -> (r: bool)
    ensures
        r == is_letter(c),
{
    ('A' <= c && c <= 'Z') || ('a' <= c && c <= 'z')
}

fn scale(v: u64, f: u64, j: usize, i: usize) -> (r: Result<(u64, usize), ParseError>)
    requires
        v <= 0xffff_ffff,
        f <= 1_000_000,
    ensures
        match r {
            Ok((d, k)) => scaled(v as nat, f as nat, j as int, i as int) == Ok::<(nat, int), ParseError>(
                (d as nat, k as int),
            ) && d <= 0xffff_ffff && k == j,
            Err(e) => scaled(v as nat, f as nat, j as int, i as int) == Err::<(nat, int), ParseError>(e),
        },
{
    assert(v * f <= 0xffff_ffff * 1_000_000) by (nonlinear_arith)
        requires
            v <= 0xffff_ffff,
            f <= 1_000_000,
    ;
    let p = v * f;
    if p > 0xffff_ffff {
        Err(ParseError { kind: ErrorKind::MalformedNumber, position: i })
    } else {
        Ok((p, j))
    }
}

/// Scans a duration at `i`, in microseconds.
fn scan_delay(s: &Vec<char>, i: usize) -> (r: Result<(u64, usize), ParseError>)
    requires
        i <= s@.len(),
    ensures
        match r {
            Ok((d, j)) => delay_at(s@, i as int) == Ok::<(nat, int), ParseError>((d as nat, j as int)) && d
                <= 0xffff_ffff && i < j <= s@.len(),
            Err(e) => delay_at(s@, i as int) == Err::<(nat, int), ParseError>(e),
        },
{
    let (v, j) = match scan_number(s, i, 10, 0xffff_ffff) {
        Ok(x) => x,
        Err(e) => return Err(e),
    };
    if j < s.len() && is_letter_exec(s[j]) {
        let u = s[j];
        if ci_char_eq_exec(u, 'S') {
            scale(v, 1_000_000, j + 1, i)
        } else if ci_char_eq_exec(u, 'M') {
            scale(v, 1000, j + 1, i)
        } else if ci_char_eq_exec(u, 'U') {
            Ok((v, j + 1))
        } else if ci_char_eq_exec(u, 'K') {
            scale(v, 10, j + 1, i)
        } else if ci_char_eq_exec(u, 'H') {
            if v == 0 {
                Err(ParseError { kind: ErrorKind::MalformedNumber, position: i })
            } else {
                Ok((1_000_000 / v, j + 1))
            }
        } else {
            Err(ParseError { kind: ErrorKind::UnknownToken, position: j })
        }
    } else {
        scale(v, 1000, j, i)
    }
}

fn scan_bool(s: &Vec<char>, i: usize) -> (r: Result<(bool, usize), ParseError>)
    requires
        i <= s@.len(),
    ensures
        agrees(r, bool_at(s@, i as int)),
        r matches Ok((_, j)) ==> i <= j <= s@.len(),
{
    let j = scan_word(s, i);
    if token_is(s, i, j, "TRUE") || token_is(s, i, j, "T") {
        Ok((true, j))
    } else if token_is(s, i, j, "FALSE") || token_is(s, i, j, "F") {
        Ok((false, j))
    } else {
        Err(ParseError { kind: ErrorKind::UnknownToken, position: i })
    }
}

fn scan_clock(s: &Vec<char>, i: usize) -> (r: Result<(ClockType, usize), ParseError>)
    requires
        i <= s@.len(),
    ensures
        agrees(r, clock_at(s@, i as int)),
        r matches Ok((_, j)) ==> i <= j <= s@.len(),
{
    if i < s.len() && ci_char_eq_exec(s[i], 'H') {
        Ok((ClockType::Hardware, i + 1))
    } else if i < s.len() && ci_char_eq_exec(s[i], 'S') {
        Ok((ClockType::Software, i + 1))
    } else if i < s.len() && ci_char_eq_exec(s[i], 'E') {
        Ok((ClockType::Either, i + 1))
    } else {
        Err(ParseError { kind: ErrorKind::UnknownToken, position: i })
    }
}

fn scan_op(s: &Vec<char>, i: usize) -> (r: Result<(StateOp, usize), ParseError>)
    requires
        i <= s@.len(),
    ensures
        agrees(r, op_at(s@, i as int)),
        r matches Ok((_, j)) ==> i <= j <= s@.len(),
{
    if i >= s.len() {
        return Err(ParseError { kind: ErrorKind::UnknownToken, position: i });
    }
    let eq_next = i + 1 < s.len() && s[i + 1] == '=';
    let c = s[i];
    if c == '=' {
        Ok((StateOp::Eq, i + 1))
    } else if c == '!' && eq_next {
        Ok((StateOp::NEq, i + 2))
    } else if c == '>' {
        if eq_next {
            Ok((StateOp::GEq, i + 2))
        } else {
            Ok((StateOp::GT, i + 1))
        }
    } else if c == '<' {
        if eq_next {
            Ok((StateOp::LEq, i + 2))
        } else {
            Ok((StateOp::LT, i + 1))
        }
    } else if c == '*' {
        Ok((StateOp::All, i + 1))
    } else {
        Err(ParseError { kind: ErrorKind::UnknownToken, position: i })
    }
}

fn is_comma(s: &Vec<char>, i: usize) -> (r: bool)
    ensures
        r == comma_at(s@, i as int),
        r ==> i < s@.len() <= usize::MAX,
{
    let n = s.len();
    i < n && s[i] == ','
}

fn scan_periodic(s: &Vec<char>, k: usize, skip: bool) -> (r: Result<(Event, usize), ParseError>)
    requires
        k <= s@.len(),
    ensures
        agrees(r, periodic_at(s@, k as int, skip)),
        r matches Ok((_, j)) ==> k < j <= s@.len(),
{
    if !is_comma(s, k) {
        return Err(ParseError { kind: ErrorKind::UnknownToken, position: k });
    }
    let (d, j) = match scan_delay(s, k + 1) {
        Ok(x) => x,
        Err(e) => return Err(e),
    };
    if is_comma(s, j) {
        let (b, m) = match scan_bool(s, j + 1) {
            Ok(x) => x,
            Err(e) => return Err(e),
        };
        Ok((Event::Periodic { period: d as u32, immediate: b, skip_dups: skip }, m))
    } else {
        Ok((Event::Periodic { period: d as u32, immediate: true, skip_dups: skip }, j))
    }
}

fn scan_clock_event(s: &Vec<char>, k: usize) -> (r: Result<(Event, usize), ParseError>)
    requires
        k <= s@.len(),
    ensures
        agrees(r, clock_event_at(s@, k as int)),
        r matches Ok((_, j)) ==> k < j <= s@.len(),
{
    if !is_comma(s, k) {
        return Err(ParseError { kind: ErrorKind::UnknownToken, position: k });
    }
    let (code, j) = match scan_number(s, k + 1, 16, 0xffff) {
        Ok(x) => x,
        Err(e) => return Err(e),
    };
    if !is_comma(s, j) {
        return Ok((Event::Clock { event: code as u16, clk_type: ClockType::Either, delay: 0 }, j));
    }
    let (c, m) = match scan_clock(s, j + 1) {
        Ok(x) => x,
        Err(e) => return Err(e),
    };
    if !is_comma(s, m) {
        return Ok((Event::Clock { event: code as u16, clk_type: c, delay: 0 }, m));
    }
    let (d, n) = match scan_delay(s, m + 1) {
        Ok(x) => x,
        Err(e) => return Err(e),
    };
    Ok((Event::Clock { event: code as u16, clk_type: c, delay: d as u32 }, n))
}

fn scan_state(s: &Vec<char>, k: usize) -> (r: Result<(Event, usize), ParseError>)
    requires
        k <= s@.len(),
    ensures
        agrees(r, state_at(s@, k as int)),
        r matches Ok((_, j)) ==> k < j <= s@.len(),
{
    if !is_comma(s, k) {
        return Err(ParseError { kind: ErrorKind::UnknownToken, position: k });
    }
    let (dev, a) = match scan_number(s, k + 1, 10, 0xffff_ffff) {
        Ok(x) => x,
        Err(e) => return Err(e),
    };
    if !is_comma(s, a) {
        return Err(ParseError { kind: ErrorKind::UnknownToken, position: a });
    }
    let (val, b) = match scan_number(s, a + 1, 10, 0xffff) {
        Ok(x) => x,
        Err(e) => return Err(e),
    };
    if !is_comma(s, b) {
        return Err(ParseError { kind: ErrorKind::UnknownToken, position: b });
    }
    let (d, c) = match scan_delay(s, b + 1) {
        Ok(x) => x,
        Err(e) => return Err(e),
    };
    if !is_comma(s, c) {
        return Err(ParseError { kind: ErrorKind::UnknownToken, position: c });
    }
    let (op, n) = match scan_op(s, c + 1) {
        Ok(x) => x,
        Err(e) => return Err(e),
    };
    Ok((Event::State { device: dev as u32, value: val as u16, delay: d as u32, expr: op }, n))
}

/// Scans an optional event at `i`.
pub fn scan_event(s: &Vec<char>, i: usize) -> (r: Result<(Event, usize), ParseError>)
    requires
        i <= s@.len(),
    ensures
        agrees(r, event_at(s@, i as int)),
        r matches Ok((_, j)) ==> i <= j <= s@.len(),
{
    if !(i < s.len() && s[i] == '@') {
        return Ok((Event::Default, i));
    }
    if i + 1 >= s.len() {
        return Err(ParseError { kind: ErrorKind::UnknownToken, position: i + 1 });
    }
    let c = s[i + 1];
    if ci_char_eq_exec(c, 'N') {
        Ok((Event::Never, i + 2))
    } else if ci_char_eq_exec(c, 'I') {
        Ok((Event::Immediate, i + 2))
    } else if ci_char_eq_exec(c, 'P') || ci_char_eq_exec(c, 'Q') {
        scan_periodic(s, i + 2, ci_char_eq_exec(c, 'Q'))
    } else if ci_char_eq_exec(c, 'E') {
        scan_clock_event(s, i + 2)
    } else if ci_char_eq_exec(c, 'S') {
        scan_state(s, i + 2)
    } else {
        Err(ParseError { kind: ErrorKind::UnknownToken, position: i + 1 })
    }
}

} // verus!
