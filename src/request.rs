//! The request assembler: device, category, range, field and event, in that
//! order, over the whole input.

use crate::entity::{ErrorKind, Event, ParseError, Range, Request, RequestView};
use crate::event::{event_at, scan_event};
use crate::scan::{
    agrees, category_at, device_at, field_at, perr, range_at, scan_category, scan_device, scan_field,
    scan_range,
};
use vstd::prelude::*;
use vstd::string::*;

verus! {

/// The request that `s` starts with, and where it ends.
pub open spec fn request_at(s: Seq<char>) -> Result<(RequestView, int), ParseError> {
    match device_at(s) {
        Err(e) => Err(e),
        Ok((d, hint, i)) => {
            let (p, j) = category_at(s, i, hint);
            match range_at(s, j) {
                Err(e) => Err(e),
                Ok((r, k)) => {
                    let (q, m) = field_at(s, k, p);
                    match event_at(s, m) {
                        Err(e) => Err(e),
                        Ok((ev, n)) => Ok((RequestView { device: d, property: q, range: r, event: ev }, n)),
                    }
                },
            }
        },
    }
}

/// The request that the whole of `s` spells; characters left over after a
/// request are an error.
pub open spec fn spec_parse(s: Seq<char>) -> Result<RequestView, ParseError> {
    match request_at(s) {
        Err(e) => Err(e),
        Ok((v, n)) => if n == s.len() {
            Ok(v)
        } else {
            Err(perr(ErrorKind::TrailingInput, n))
        },
    }
}

fn chars_of(text: &str) -> (r: Vec<char>)
    ensures
        r@ == text@,
{
    let n = text.unicode_len();
    let mut r: Vec<char> = Vec::new();
    let mut k: usize = 0;
    while k < n
        invariant
            n == text@.len(),
            k <= n,
            r@ == text@.subrange(0, k as int),
        decreases n - k,
    {
        r.push(text.get_char(k));
        k = k + 1;
        assert(r@ =~= text@.subrange(0, k as int));
    }
    assert(r@ =~= text@);
    r
}

/// Parses the request at the start of `text`; the position where it ends
/// comes with it.
pub fn parse(text: &str) -> (r: Result<(Request, usize), ParseError>)
    ensures
        match r {
            Ok((q, n)) => request_at(text@) == Ok::<(RequestView, int), ParseError>((q@, n as int)),
            Err(e) => request_at(text@) == Err::<(RequestView, int), ParseError>(e),
        },
        r matches Ok((_, n)) ==> n <= text@.len(),
{
    let s = chars_of(text);
    let (device, hint, i) = match scan_device(text, &s) {
        Ok(x) => x,
        Err(e) => return Err(e),
    };
    proof {
        crate::scan::lemma_word_end_bound(s@, 0);
    }
    let (p, j) = scan_category(&s, i, hint);
    let (range, k) = match scan_range(&s, j) {
        Ok(x) => x,
        Err(e) => return Err(e),
    };
    let (property, m) = scan_field(&s, k, p);
    let (event, n) = match scan_event(&s, m) {
        Ok(x) => x,
        Err(e) => return Err(e),
    };
    Ok((Request { device, property, range, event }, n))
}

/// Parses `drf`, which must be one request and nothing more.
pub fn parse_drf(drf: &str) -> (r: Result<Request, ParseError>)
    ensures
        match r {
            Ok(q) => spec_parse(drf@) == Ok::<RequestView, ParseError>(q@),
            Err(e) => spec_parse(drf@) == Err::<RequestView, ParseError>(e),
        },
{
    match parse(drf) {
        Ok((q, n)) => {
            if n == drf.unicode_len() {
                Ok(q)
            } else {
                Err(ParseError { kind: ErrorKind::TrailingInput, position: n })
            }
        },
        Err(e) => Err(e),
    }
}

/// Parses the event at the start of `text`, and where it ends.
pub fn parse_event(text: &str) -> (r: Result<(Event, usize), ParseError>)
    ensures
        agrees(r, event_at(text@, 0)),
{
    let s = chars_of(text);
    scan_event(&s, 0)
}

/// Parses the range at the start of `text`, and where it ends.
pub fn parse_range(text: &str) -> (r: Result<(Range, usize), ParseError>)
    ensures
        agrees(r, range_at(text@, 0)),
{
    let s = chars_of(text);
    scan_range(&s, 0)
}

} // verus!
