//! The scanners for the parts of a request: device, category, range and
//! field. Each reads from a position and reports where it stopped.

use crate::entity::{
    AnalogField, Device, DigitalField, ErrorKind, ParseError, Property, Range, ReadingField, SettingField,
    StatusField,
};
use crate::text::{is_digit_exec, ci_eq, digits_end, number_at, scan_number, scan_word, token_is, word_end};
use vstd::prelude::*;
use vstd::string::*;

verus! {

/// The error of `kind` at position `pos`.
pub open spec fn perr(kind: ErrorKind, pos: int) -> ParseError {
    ParseError { kind, position: pos as usize }
}

/// The executable result `r` is the scanner's result `g`.
pub open spec fn agrees<T>(r: Result<(T, usize), ParseError>, g: Result<(T, int), ParseError>) -> bool {
    match r {
        Ok((a, i)) => g == Ok::<(T, int), ParseError>((a, i as int)),
        Err(e) => g == Err::<(T, int), ParseError>(e),
    }
}

/// The device at the start of `s`: a name, a separator (`:` or `|`) and a
/// second name. Its canonical spelling always has `:`. The separator gives
/// the category used when the request names none: `:` reading, `|` status.
pub open spec fn device_at(s: Seq<char>) -> Result<(Seq<char>, Property, int), ParseError> {
    let h = word_end(s, 0);
    if h >= s.len() || (s[h] != ':' && s[h] != '|') {
        Err(perr(ErrorKind::ExpectedSeparator, h))
    } else if h == 0 {
        Err(perr(ErrorKind::UnknownToken, 0))
    } else {
        let t = word_end(s, h + 1);
        if t == h + 1 {
            Err(perr(ErrorKind::UnknownToken, h + 1))
        } else {
            Ok(
                (
                    s.subrange(0, h) + seq![':'] + s.subrange(h + 1, t),
                    if s[h] == ':' {
                        Property::Reading(ReadingField::Scaled)
                    } else {
                        Property::Status(StatusField::All)
                    },
                    t,
                ),
            )
        }
    }
}

/// The category named at `i`, or `hint` where no category token stands there.
pub open spec fn category_at(s: Seq<char>, i: int, hint: Property) -> (Property, int) {
    if 0 <= i < s.len() && s[i] == '.' {
        let j = word_end(s, i + 1);
        match category_of(s.subrange(i, j)) {
            Some(p) => (p, j),
            None => (hint, i),
        }
    } else {
        (hint, i)
    }
}

/// The property that the field token `tok` makes of `p`, where the token is
/// a field of `p`'s category.
pub open spec fn field_of(p: Property, tok: Seq<char>) -> Option<Property> {
    match p {
        Property::Reading(_) => match ReadingField::spec_from_token(tok) {
            Some(f) => Some(Property::Reading(f)),
            None => None,
        },
        Property::Setting(_) => match SettingField::spec_from_token(tok) {
            Some(f) => Some(Property::Setting(f)),
            None => None,
        },
        Property::Status(_) => match StatusField::spec_from_token(tok) {
            Some(f) => Some(Property::Status(f)),
            None => None,
        },
        Property::Analog(_) => match AnalogField::spec_from_token(tok) {
            Some(f) => Some(Property::Analog(f)),
            None => None,
        },
        Property::Digital(_) => match DigitalField::spec_from_token(tok) {
            Some(f) => Some(Property::Digital(f)),
            None => None,
        },
        _ => None,
    }
}

/// `p` with the field named at `i`, or `p` unchanged where no field of its
/// category stands there.
pub open spec fn field_at(s: Seq<char>, i: int, p: Property) -> (Property, int) {
    if 0 <= i < s.len() && s[i] == '.' {
        let j = word_end(s, i + 1);
        match field_of(p, s.subrange(i, j)) {
            Some(q) => (q, j),
            None => (p, i),
        }
    } else {
        (p, i)
    }
}

/// An optional decimal number at `i`, at most `max`.
pub open spec fn opt_number_at(s: Seq<char>, i: int, max: nat) -> Result<(Option<nat>, int), ParseError> {
    if digits_end(s, i, 10) == i {
        Ok((None, i))
    } else {
        match number_at(s, i, 10, max) {
            Ok((v, j)) => Ok((Some(v), j)),
            Err(e) => Err(e),
        }
    }
}

/// The inside of a bracket that `close` ends, from `i`: an optional first
/// number, whether a `:` follows it, an optional second number, and the
/// position after `close`.
pub open spec fn span_at(s: Seq<char>, i: int, close: char, max: nat) -> Result<
    (Option<nat>, bool, Option<nat>, int),
    ParseError,
> {
    match opt_number_at(s, i, max) {
        Err(e) => Err(e),
        Ok((a, j)) => {
            if 0 <= j < s.len() && s[j] == ':' {
                match opt_number_at(s, j + 1, max) {
                    Err(e) => Err(e),
                    Ok((b, k)) => {
                        if 0 <= k < s.len() && s[k] == close {
                            Ok((a, true, b, k + 1))
                        } else {
                            Err(perr(ErrorKind::UnterminatedBracket, k))
                        }
                    },
                }
            } else if 0 <= j < s.len() && s[j] == close {
                Ok((a, false, None, j + 1))
            } else {
                Err(perr(ErrorKind::UnterminatedBracket, j))
            }
        },
    }
}

/// The array range that a bracket `[a:b]` denotes. Without a `:` one index
/// is meant (none: the whole); a missing start is 0, a missing end the last
/// element.
pub open spec fn array_of(a: Option<nat>, colon: bool, b: Option<nat>) -> Range {
    let st = match a {
        Some(v) => v,
        None => 0,
    };
    if !colon {
        match a {
            None => Range::Full,
            Some(v) => Range::Array { start_index: v as u16, end_index: Some(v as u16) },
        }
    } else {
        match b {
            None => Range::Array { start_index: st as u16, end_index: None },
            Some(e) => Range::Array { start_index: st as u16, end_index: Some(e as u16) },
        }
    }
}

/// The byte range that a bracket `{a:b}` denotes. Without a `:` one byte is
/// meant (none: the whole); a missing offset is 0, a missing length runs to
/// the end.
pub open spec fn raw_of(a: Option<nat>, colon: bool, b: Option<nat>) -> Range {
    let st = match a {
        Some(v) => v,
        None => 0,
    };
    if !colon {
        match a {
            None => Range::Full,
            Some(v) => Range::Raw { offset: v as u32, length: Some(1) },
        }
    } else {
        match b {
            None => Range::Raw { offset: st as u32, length: None },
            Some(e) => Range::Raw { offset: st as u32, length: Some(e as u32) },
        }
    }
}

/// The range at `i`: `[...]` of element indices, `{...}` of bytes, or, where
/// no bracket stands there, the mark of no range, consuming nothing.
pub open spec fn range_at(s: Seq<char>, i: int) -> Result<(Range, int), ParseError> {
    if 0 <= i < s.len() && s[i] == '[' {
        match span_at(s, i + 1, ']', 0xffff) {
            Err(e) => Err(e),
            Ok((a, c, b, j)) => Ok((array_of(a, c, b), j)),
        }
    } else if 0 <= i < s.len() && s[i] == '{' {
        match span_at(s, i + 1, '}', 0xffff_ffff) {
            Err(e) => Err(e),
            Ok((a, c, b, j)) => Ok((raw_of(a, c, b), j)),
        }
    } else {
        Ok((Range::Array { start_index: 0, end_index: Some(0) }, i))
    }
}

pub open spec fn opt_nat(o: Option<u64>) -> Option<nat> {
    match o {
        Some(v) => Some(v as nat),
        None => None,
    }
}

pub open spec fn bounded(o: Option<u64>, max: u64) -> bool {
    match o {
        Some(v) => v <= max,
        None => true,
    }
}

fn scan_opt_number(s: &Vec<char>, i: usize, max: u64) -> (r: Result<(Option<u64>, usize), ParseError>)
    requires
        i <= s@.len(),
        max <= 0xffff_ffff,
    ensures
        match r {
            Ok((a, j)) => opt_number_at(s@, i as int, max as nat) == Ok::<(Option<nat>, int), ParseError>(
                (opt_nat(a), j as int),
            ) && bounded(a, max) && i <= j <= s@.len(),
            Err(e) => opt_number_at(s@, i as int, max as nat) == Err::<(Option<nat>, int), ParseError>(e),
        },
{
    if i < s.len() && is_digit_exec(s[i], 10) {
        proof {
            lemma_digits_end_bound(s@, i + 1);
        }
        let (v, j) = match scan_number(s, i, 10, max) {
            Ok(x) => x,
            Err(e) => return Err(e),
        };
        Ok((Some(v), j))
    } else {
        Ok((None, i))
    }
}

pub proof fn lemma_word_end_bound(s: Seq<char>, i: int)
    requires
        0 <= i <= s.len(),
    ensures
        i <= word_end(s, i) <= s.len(),
    decreases s.len() - i,
{
    if i < s.len() && crate::text::is_word_char(s[i]) {
        lemma_word_end_bound(s, i + 1);
    }
}

proof fn lemma_digits_end_bound(s: Seq<char>, i: int)
    requires
        0 <= i <= s.len(),
    ensures
        i <= digits_end(s, i, 10) <= s.len(),
    decreases s.len() - i,
{
    if i < s.len() && crate::text::is_digit_in(s[i], 10) {
        lemma_digits_end_bound(s, i + 1);
    }
}

fn scan_span(s: &Vec<char>, i: usize, close: char, max: u64) -> (r: Result<
    (Option<u64>, bool, Option<u64>, usize),
    ParseError,
>)
    requires
        i <= s@.len(),
        max <= 0xffff_ffff,
    ensures
        match r {
            Ok((a, c, b, j)) => span_at(s@, i as int, close, max as nat) == Ok::<
                (Option<nat>, bool, Option<nat>, int),
                ParseError,
            >((opt_nat(a), c, opt_nat(b), j as int)) && bounded(a, max) && bounded(b, max) && i
                <= j <= s@.len(),
            Err(e) => span_at(s@, i as int, close, max as nat) == Err::<
                (Option<nat>, bool, Option<nat>, int),
                ParseError,
            >(e),
        },
{
    let (a, j) = match scan_opt_number(s, i, max) {
        Ok(v) => v,
        Err(e) => return Err(e),
    };
    if j < s.len() && s[j] == ':' {
        let (b, k) = match scan_opt_number(s, j + 1, max) {
            Ok(v) => v,
            Err(e) => return Err(e),
        };
        if k < s.len() && s[k] == close {
            Ok((a, true, b, k + 1))
        } else {
            Err(ParseError { kind: ErrorKind::UnterminatedBracket, position: k })
        }
    } else if j < s.len() && s[j] == close {
        Ok((a, false, None, j + 1))
    } else {
        Err(ParseError { kind: ErrorKind::UnterminatedBracket, position: j })
    }
}

/// Scans an optional range at `i`.
pub fn scan_range(s: &Vec<char>, i: usize) -> (r: Result<(Range, usize), ParseError>)
    requires
        i <= s@.len(),
    ensures
        agrees(r, range_at(s@, i as int)),
        r matches Ok((_, j)) ==> i <= j <= s@.len(),
{
    let is_array = i < s.len() && s[i] == '[';
    if is_array || (i < s.len() && s[i] == '{') {
        let max: u64 = if is_array { 0xffff } else { 0xffff_ffff };
        let close = if is_array { ']' } else { '}' };
        let (a, colon, b, j) = match scan_span(s, i + 1, close, max) {
            Ok(v) => v,
            Err(e) => return Err(e),
        };
        let st: u64 = match a {
            Some(v) => v,
            None => 0,
        };
        let range = if !colon {
            match a {
                None => Range::Full,
                Some(v) => if is_array {
                    Range::Array { start_index: v as u16, end_index: Some(v as u16) }
                } else {
                    Range::Raw { offset: v as u32, length: Some(1) }
                },
            }
        } else {
            match b {
                None => if is_array {
                    Range::Array { start_index: st as u16, end_index: None }
                } else {
                    Range::Raw { offset: st as u32, length: None }
                },
                Some(e) => if is_array {
                    Range::Array { start_index: st as u16, end_index: Some(e as u16) }
                } else {
                    Range::Raw { offset: st as u32, length: Some(e as u32) }
                },
            }
        };
        Ok((range, j))
    } else {
        Ok((Range::Array { start_index: 0, end_index: Some(0) }, i))
    }
}

/// Scans the device at the start of `s`, which holds the characters of `text`.
pub fn scan_device(text: &str, s: &Vec<char>) -> (r: Result<(Device, Property, usize), ParseError>)
    requires
        s@ == text@,
    ensures
        match r {
            Ok((d, p, j)) => device_at(s@) == Ok::<(Seq<char>, Property, int), ParseError>((d@, p, j as int))
                && j <= s@.len(),
            Err(e) => device_at(s@) == Err::<(Seq<char>, Property, int), ParseError>(e),
        },
{
    let h = scan_word(s, 0);
    if h >= s.len() || (s[h] != ':' && s[h] != '|') {
        return Err(ParseError { kind: ErrorKind::ExpectedSeparator, position: h });
    }
    if h == 0 {
        return Err(ParseError { kind: ErrorKind::UnknownToken, position: 0 });
    }
    let t = scan_word(s, h + 1);
    if t == h + 1 {
        return Err(ParseError { kind: ErrorKind::UnknownToken, position: h + 1 });
    }
    let mut name = String::from_str(text.substring_char(0, h));
    proof {
        reveal_strlit(":");
    }
    name.append(":");
    name.append(text.substring_char(h + 1, t));
    assert(name@ =~= s@.subrange(0, h as int) + seq![':'] + s@.subrange(h + 1, t as int));
    let hint = if s[h] == ':' {
        Property::Reading(ReadingField::Scaled)
    } else {
        Property::Status(StatusField::All)
    };
    Ok((Device::new(name), hint, t))
}

/// Scans an optional category token at `i`; where none stands there, the
/// result is `hint` and nothing is consumed.
pub fn scan_category(s: &Vec<char>, i: usize, hint: Property) -> (r: (Property, usize))
    requires
        i <= s@.len(),
    ensures
        (r.0, r.1 as int) == category_at(s@, i as int, hint),
        i <= r.1 <= s@.len(),
{
    if i < s.len() && s[i] == '.' {
        let j = scan_word(s, i + 1);
        match category_from_token(s, i, j) {
            Some(p) => (p, j),
            None => (hint, i),
        }
    } else {
        (hint, i)
    }
}

fn field_from_token(p: Property, s: &Vec<char>, from: usize, to: usize) -> (r: Option<Property>)
    requires
        from <= to <= s@.len(),
    ensures
        r == field_of(p, s@.subrange(from as int, to as int)),
{
    match p {
        Property::Reading(_) => match ReadingField::from_token(s, from, to) {
            Some(f) => Some(Property::Reading(f)),
            None => None,
        },
        Property::Setting(_) => match SettingField::from_token(s, from, to) {
            Some(f) => Some(Property::Setting(f)),
            None => None,
        },
        Property::Status(_) => match StatusField::from_token(s, from, to) {
            Some(f) => Some(Property::Status(f)),
            None => None,
        },
        Property::Analog(_) => match AnalogField::from_token(s, from, to) {
            Some(f) => Some(Property::Analog(f)),
            None => None,
        },
        Property::Digital(_) => match DigitalField::from_token(s, from, to) {
            Some(f) => Some(Property::Digital(f)),
            None => None,
        },
        _ => None,
    }
}

/// Scans an optional field token of `p`'s category at `i`; where none stands
/// there, `p` is kept and nothing is consumed.
pub fn scan_field(s: &Vec<char>, i: usize, p: Property) -> (r: (Property, usize))
    requires
        i <= s@.len(),
    ensures
        (r.0, r.1 as int) == field_at(s@, i as int, p),
        i <= r.1 <= s@.len(),
{
    if i < s.len() && s[i] == '.' {
        let j = scan_word(s, i + 1);
        match field_from_token(p, s, i, j) {
            Some(q) => (q, j),
            None => (p, i),
        }
    } else {
        (p, i)
    }
}

impl ReadingField {
    /// The field that the token `tok` (with its dot) names, ignoring case.
    pub open spec fn spec_from_token(tok: Seq<char>) -> Option<ReadingField> {
        if ci_eq(tok, ".RAW"@) {
            Some(ReadingField::Raw)
        } else if ci_eq(tok, ".PRIMARY"@) {
            Some(ReadingField::Primary)
        } else if ci_eq(tok, ".SCALED"@) {
            Some(ReadingField::Scaled)
        } else {
            None
        }
    }

    /// The field that `s[from..to]` names, ignoring case.
    pub fn from_token(s: &Vec<char>, from: usize, to: usize) -> (r: Option<ReadingField>)
        requires
            from <= to <= s@.len(),
        ensures
            r == ReadingField::spec_from_token(s@.subrange(from as int, to as int)),
    {
        if token_is(s, from, to, ".RAW") {
            Some(ReadingField::Raw)
        } else if token_is(s, from, to, ".PRIMARY") {
            Some(ReadingField::Primary)
        } else if token_is(s, from, to, ".SCALED") {
            Some(ReadingField::Scaled)
        } else {
            None
        }
    }
}

impl SettingField {
    /// The field that the token `tok` (with its dot) names, ignoring case.
    pub open spec fn spec_from_token(tok: Seq<char>) -> Option<SettingField> {
        if ci_eq(tok, ".RAW"@) {
            Some(SettingField::Raw)
        } else if ci_eq(tok, ".PRIMARY"@) {
            Some(SettingField::Primary)
        } else if ci_eq(tok, ".SCALED"@) {
            Some(SettingField::Scaled)
        } else {
            None
        }
    }

    /// The field that `s[from..to]` names, ignoring case.
    pub fn from_token(s: &Vec<char>, from: usize, to: usize) -> (r: Option<SettingField>)
        requires
            from <= to <= s@.len(),
        ensures
            r == SettingField::spec_from_token(s@.subrange(from as int, to as int)),
    {
        if token_is(s, from, to, ".RAW") {
            Some(SettingField::Raw)
        } else if token_is(s, from, to, ".PRIMARY") {
            Some(SettingField::Primary)
        } else if token_is(s, from, to, ".SCALED") {
            Some(SettingField::Scaled)
        } else {
            None
        }
    }
}

impl StatusField {
    /// The field that the token `tok` (with its dot) names, ignoring case.
    pub open spec fn spec_from_token(tok: Seq<char>) -> Option<StatusField> {
        if ci_eq(tok, ".RAW"@) {
            Some(StatusField::Raw)
        } else if ci_eq(tok, ".ALL"@) {
            Some(StatusField::All)
        } else if ci_eq(tok, ".TEXT"@) {
            Some(StatusField::Text)
        } else if ci_eq(tok, ".EXTENDED_TEXT"@) {
            Some(StatusField::ExtText)
        } else if ci_eq(tok, ".ON"@) {
            Some(StatusField::On)
        } else if ci_eq(tok, ".READY"@) {
            Some(StatusField::Ready)
        } else if ci_eq(tok, ".REMOTE"@) {
            Some(StatusField::Remote)
        } else if ci_eq(tok, ".POSITIVE"@) {
            Some(StatusField::Positive)
        } else if ci_eq(tok, ".RAMP"@) {
            Some(StatusField::Ramp)
        } else {
            None
        }
    }

    /// The field that `s[from..to]` names, ignoring case.
    pub fn from_token(s: &Vec<char>, from: usize, to: usize) -> (r: Option<StatusField>)
        requires
            from <= to <= s@.len(),
        ensures
            r == StatusField::spec_from_token(s@.subrange(from as int, to as int)),
    {
        if token_is(s, from, to, ".RAW") {
            Some(StatusField::Raw)
        } else if token_is(s, from, to, ".ALL") {
            Some(StatusField::All)
        } else if token_is(s, from, to, ".TEXT") {
            Some(StatusField::Text)
        } else if token_is(s, from, to, ".EXTENDED_TEXT") {
            Some(StatusField::ExtText)
        } else if token_is(s, from, to, ".ON") {
            Some(StatusField::On)
        } else if token_is(s, from, to, ".READY") {
            Some(StatusField::Ready)
        } else if token_is(s, from, to, ".REMOTE") {
            Some(StatusField::Remote)
        } else if token_is(s, from, to, ".POSITIVE") {
            Some(StatusField::Positive)
        } else if token_is(s, from, to, ".RAMP") {
            Some(StatusField::Ramp)
        } else {
            None
        }
    }
}

impl AnalogField {
    /// The field that the token `tok` (with its dot) names, ignoring case.
    pub open spec fn spec_from_token(tok: Seq<char>) -> Option<AnalogField> {
        if ci_eq(tok, ".RAW"@) {
            Some(AnalogField::Raw)
        } else if ci_eq(tok, ".ALL"@) {
            Some(AnalogField::All)
        } else if ci_eq(tok, ".TEXT"@) {
            Some(AnalogField::Text)
        } else if ci_eq(tok, ".MIN"@) {
            Some(AnalogField::Min)
        } else if ci_eq(tok, ".MAX"@) {
            Some(AnalogField::Max)
        } else if ci_eq(tok, ".NOM"@) {
            Some(AnalogField::Nom)
        } else if ci_eq(tok, ".TOL"@) {
            Some(AnalogField::Tol)
        } else if ci_eq(tok, ".RAW_MIN"@) {
            Some(AnalogField::RawMin)
        } else if ci_eq(tok, ".RAW_MAX"@) {
            Some(AnalogField::RawMax)
        } else if ci_eq(tok, ".RAW_NOM"@) {
            Some(AnalogField::RawNom)
        } else if ci_eq(tok, ".RAW_TOL"@) {
            Some(AnalogField::RawTol)
        } else if ci_eq(tok, ".ALARM_ENABLE"@) {
            Some(AnalogField::Enable)
        } else if ci_eq(tok, ".ALARM_STATUS"@) {
            Some(AnalogField::Status)
        } else if ci_eq(tok, ".TRIES_NEEDED"@) {
            Some(AnalogField::TriesNeeded)
        } else if ci_eq(tok, ".TRIES_NOW"@) {
            Some(AnalogField::TriesNow)
        } else if ci_eq(tok, ".ALARM_FTD"@) {
            Some(AnalogField::FTD)
        } else if ci_eq(tok, ".ABORT"@) {
            Some(AnalogField::Abort)
        } else if ci_eq(tok, ".ABORT_INHIBIT"@) {
            Some(AnalogField::AbortInhibit)
        } else if ci_eq(tok, ".FLAGS"@) {
            Some(AnalogField::Flags)
        } else {
            None
        }
    }

    /// The field that `s[from..to]` names, ignoring case.
    pub fn from_token(s: &Vec<char>, from: usize, to: usize) -> (r: Option<AnalogField>)
        requires
            from <= to <= s@.len(),
        ensures
            r == AnalogField::spec_from_token(s@.subrange(from as int, to as int)),
    {
        if token_is(s, from, to, ".RAW") {
            Some(AnalogField::Raw)
        } else if token_is(s, from, to, ".ALL") {
            Some(AnalogField::All)
        } else if token_is(s, from, to, ".TEXT") {
            Some(AnalogField::Text)
        } else if token_is(s, from, to, ".MIN") {
            Some(AnalogField::Min)
        } else if token_is(s, from, to, ".MAX") {
            Some(AnalogField::Max)
        } else if token_is(s, from, to, ".NOM") {
            Some(AnalogField::Nom)
        } else if token_is(s, from, to, ".TOL") {
            Some(AnalogField::Tol)
        } else if token_is(s, from, to, ".RAW_MIN") {
            Some(AnalogField::RawMin)
        } else if token_is(s, from, to, ".RAW_MAX") {
            Some(AnalogField::RawMax)
        } else if token_is(s, from, to, ".RAW_NOM") {
            Some(AnalogField::RawNom)
        } else if token_is(s, from, to, ".RAW_TOL") {
            Some(AnalogField::RawTol)
        } else if token_is(s, from, to, ".ALARM_ENABLE") {
            Some(AnalogField::Enable)
        } else if token_is(s, from, to, ".ALARM_STATUS") {
            Some(AnalogField::Status)
        } else if token_is(s, from, to, ".TRIES_NEEDED") {
            Some(AnalogField::TriesNeeded)
        } else if token_is(s, from, to, ".TRIES_NOW") {
            Some(AnalogField::TriesNow)
        } else if token_is(s, from, to, ".ALARM_FTD") {
            Some(AnalogField::FTD)
        } else if token_is(s, from, to, ".ABORT") {
            Some(AnalogField::Abort)
        } else if token_is(s, from, to, ".ABORT_INHIBIT") {
            Some(AnalogField::AbortInhibit)
        } else if token_is(s, from, to, ".FLAGS") {
            Some(AnalogField::Flags)
        } else {
            None
        }
    }
}

impl DigitalField {
    /// The field that the token `tok` (with its dot) names, ignoring case.
    pub open spec fn spec_from_token(tok: Seq<char>) -> Option<DigitalField> {
        if ci_eq(tok, ".RAW"@) {
            Some(DigitalField::Raw)
        } else if ci_eq(tok, ".ALL"@) {
            Some(DigitalField::All)
        } else if ci_eq(tok, ".TEXT"@) {
            Some(DigitalField::Text)
        } else if ci_eq(tok, ".NOM"@) {
            Some(DigitalField::Nom)
        } else if ci_eq(tok, ".MASK"@) {
            Some(DigitalField::Mask)
        } else if ci_eq(tok, ".ALARM_ENABLE"@) {
            Some(DigitalField::Enable)
        } else if ci_eq(tok, ".ALARM_STATUS"@) {
            Some(DigitalField::Status)
        } else if ci_eq(tok, ".TRIES_NEEDED"@) {
            Some(DigitalField::TriesNeeded)
        } else if ci_eq(tok, ".TRIES_NOW"@) {
            Some(DigitalField::TriesNow)
        } else if ci_eq(tok, ".ALARM_FTD"@) {
            Some(DigitalField::FTD)
        } else if ci_eq(tok, ".ABORT"@) {
            Some(DigitalField::Abort)
        } else if ci_eq(tok, ".ABORT_INHIBIT"@) {
            Some(DigitalField::AbortInhibit)
        } else if ci_eq(tok, ".FLAGS"@) {
            Some(DigitalField::Flags)
        } else {
            None
        }
    }

    /// The field that `s[from..to]` names, ignoring case.
    pub fn from_token(s: &Vec<char>, from: usize, to: usize) -> (r: Option<DigitalField>)
        requires
            from <= to <= s@.len(),
        ensures
            r == DigitalField::spec_from_token(s@.subrange(from as int, to as int)),
    {
        if token_is(s, from, to, ".RAW") {
            Some(DigitalField::Raw)
        } else if token_is(s, from, to, ".ALL") {
            Some(DigitalField::All)
        } else if token_is(s, from, to, ".TEXT") {
            Some(DigitalField::Text)
        } else if token_is(s, from, to, ".NOM") {
            Some(DigitalField::Nom)
        } else if token_is(s, from, to, ".MASK") {
            Some(DigitalField::Mask)
        } else if token_is(s, from, to, ".ALARM_ENABLE") {
            Some(DigitalField::Enable)
        } else if token_is(s, from, to, ".ALARM_STATUS") {
            Some(DigitalField::Status)
        } else if token_is(s, from, to, ".TRIES_NEEDED") {
            Some(DigitalField::TriesNeeded)
        } else if token_is(s, from, to, ".TRIES_NOW") {
            Some(DigitalField::TriesNow)
        } else if token_is(s, from, to, ".ALARM_FTD") {
            Some(DigitalField::FTD)
        } else if token_is(s, from, to, ".ABORT") {
            Some(DigitalField::Abort)
        } else if token_is(s, from, to, ".ABORT_INHIBIT") {
            Some(DigitalField::AbortInhibit)
        } else if token_is(s, from, to, ".FLAGS") {
            Some(DigitalField::Flags)
        } else {
            None
        }
    }
}

/// The category that the token `tok` (with its dot) names, ignoring case,
/// with the category's default field.
pub open spec fn category_of(tok: Seq<char>) -> Option<Property> {
    if ci_eq(tok, ".READING"@) {
        Some(Property::Reading(ReadingField::Scaled))
    } else if ci_eq(tok, ".SETTING"@) {
        Some(Property::Setting(SettingField::Scaled))
    } else if ci_eq(tok, ".STATUS"@) {
        Some(Property::Status(StatusField::All))
    } else if ci_eq(tok, ".CONTROL"@) {
        Some(Property::Control)
    } else if ci_eq(tok, ".ANALOG"@) {
        Some(Property::Analog(AnalogField::All))
    } else if ci_eq(tok, ".DIGITAL"@) {
        Some(Property::Digital(DigitalField::All))
    } else if ci_eq(tok, ".DESCRIPTION"@) {
        Some(Property::Description)
    } else if ci_eq(tok, ".INDEX"@) {
        Some(Property::Index)
    } else if ci_eq(tok, ".LONG_NAME"@) {
        Some(Property::LongName)
    } else if ci_eq(tok, ".ALARM_LIST_NAME"@) {
        Some(Property::AlarmList)
    } else {
        None
    }
}

fn category_from_token(s: &Vec<char>, from: usize, to: usize) -> (r: Option<Property>)
    requires
        from <= to <= s@.len(),
    ensures
        r == category_of(s@.subrange(from as int, to as int)),
{
    if token_is(s, from, to, ".READING") {
        Some(Property::Reading(ReadingField::Scaled))
    } else if token_is(s, from, to, ".SETTING") {
        Some(Property::Setting(SettingField::Scaled))
    } else if token_is(s, from, to, ".STATUS") {
        Some(Property::Status(StatusField::All))
    } else if token_is(s, from, to, ".CONTROL") {
        Some(Property::Control)
    } else if token_is(s, from, to, ".ANALOG") {
        Some(Property::Analog(AnalogField::All))
    } else if token_is(s, from, to, ".DIGITAL") {
        Some(Property::Digital(DigitalField::All))
    } else if token_is(s, from, to, ".DESCRIPTION") {
        Some(Property::Description)
    } else if token_is(s, from, to, ".INDEX") {
        Some(Property::Index)
    } else if token_is(s, from, to, ".LONG_NAME") {
        Some(Property::LongName)
    } else if token_is(s, from, to, ".ALARM_LIST_NAME") {
        Some(Property::AlarmList)
    } else {
        None
    }
}
} // verus!
