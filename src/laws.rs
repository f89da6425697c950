//! Properties that relate the parser and the renderers.

use crate::entity::{ErrorKind, Event, ParseError, Property, Range, ReadingField, RequestView};
use crate::event::event_at;
use crate::event_round::lemma_event_round;
use crate::numeral::{lemma_word_end_at, lemma_word_end_props};
use crate::range_round::lemma_range_round;
use crate::request::{request_at, spec_parse};
use crate::scan::{category_at, device_at, field_at, perr, range_at};
use crate::text::{is_word_char, word_end};
use crate::vocab::{
    lemma_category_stage, lemma_category_token, lemma_field_stage, lemma_field_token,
    with_default_field,
};
use vstd::prelude::*;

verus! {

/// A device name that is not followed by `:` or `|` is rejected with
/// `ExpectedSeparator`, at the position where the separator belongs.
pub proof fn separator_required(s: Seq<char>)
    requires
        word_end(s, 0) >= s.len() || (s[word_end(s, 0)] != ':' && s[word_end(s, 0)] != '|'),
    ensures
        spec_parse(s) == Err::<RequestView, ParseError>(
            perr(ErrorKind::ExpectedSeparator, word_end(s, 0)),
        ),
{
}

/// A device name in canonical spelling: a name, `:`, and a second name.
pub open spec fn device_ok(d: Seq<char>) -> bool {
    let h = word_end(d, 0);
    0 < h && h + 1 < d.len() && d[h] == ':' && word_end(d, h + 1) == d.len()
}

/// The requests that a canonical text can stand for: those whose device is
/// in canonical spelling.
pub open spec fn request_ok(v: RequestView) -> bool {
    device_ok(v.device)
}

/// A range's text starts with a bracket, an event's with `@`.
proof fn lemma_first_chars(r: Range, e: Event)
    ensures
        r.spec_canonical().len() > 0 ==> r.spec_canonical()[0] == '[' || r.spec_canonical()[0] == '{',
        e.spec_canonical().len() > 0 ==> e.spec_canonical()[0] == '@',
{
}

/// A device name in canonical spelling, followed by a dot, reads back as
/// itself, with the reading category as the default.
proof fn lemma_device_stage(s: Seq<char>, d: Seq<char>)
    requires
        device_ok(d),
        d.len() < s.len(),
        s.subrange(0, d.len() as int) == d,
        s[d.len() as int] == '.',
    ensures
        device_at(s) == Ok::<(Seq<char>, Property, int), ParseError>(
            (d, Property::Reading(ReadingField::Scaled), d.len() as int),
        ),
{
    let h = word_end(d, 0);
    let n = d.len() as int;
    lemma_word_end_props(d, 0);
    lemma_word_end_props(d, h + 1);
    assert forall|k: int| 0 <= k < n implies s[k] == d[k] by {
        assert(s.subrange(0, n)[k] == d[k]);
    }
    lemma_word_end_at(s, 0, h);
    lemma_word_end_at(s, h + 1, n);
    assert(s.subrange(0, h) + seq![':'] + s.subrange(h + 1, n) =~= d);
}

proof fn lemma_assemble(s: Seq<char>, v: RequestView, i1: int, i2: int, i3: int, i4: int)
    requires
        device_at(s) == Ok::<(Seq<char>, Property, int), ParseError>(
            (v.device, Property::Reading(ReadingField::Scaled), i1),
        ),
        category_at(s, i1, Property::Reading(ReadingField::Scaled)) == (with_default_field(v.property), i2),
        range_at(s, i2) == Ok::<(Range, int), ParseError>((v.range, i3)),
        field_at(s, i3, with_default_field(v.property)) == (v.property, i4),
        event_at(s, i4) == Ok::<(Event, int), ParseError>((v.event, s.len() as int)),
    ensures
        spec_parse(s) == Ok::<RequestView, ParseError>(v),
{
    assert(request_at(s) == Ok::<(RequestView, int), ParseError>((v, s.len() as int)));
}

/// Where five texts stand one after another, each is found at its place.
proof fn lemma_layout(d: Seq<char>, c: Seq<char>, r: Seq<char>, f: Seq<char>, e: Seq<char>)
    ensures
        ({
            let s = d + c + r + f + e;
            let i1 = d.len() as int;
            let i2 = i1 + c.len();
            let i3 = i2 + r.len();
            let i4 = i3 + f.len();
            &&& s.len() == i4 + e.len()
            &&& s.subrange(0, i1) == d
            &&& s.subrange(i1, i2) == c
            &&& s.subrange(i2, i3) == r
            &&& s.subrange(i3, i4) == f
            &&& s.subrange(i4, s.len() as int) == e
            &&& c.len() > 0 ==> s[i1] == c[0]
            &&& r.len() > 0 ==> s[i2] == r[0]
            &&& r.len() == 0 && f.len() > 0 ==> s[i2] == f[0]
            &&& r.len() == 0 && f.len() == 0 && e.len() > 0 ==> s[i2] == e[0]
            &&& f.len() > 0 ==> s[i3] == f[0]
            &&& f.len() == 0 && e.len() > 0 ==> s[i3] == e[0]
            &&& e.len() > 0 ==> s[i4] == e[0]
        }),
{
    let s = d + c + r + f + e;
    let i1 = d.len() as int;
    let i2 = i1 + c.len();
    let i3 = i2 + r.len();
    let i4 = i3 + f.len();
    assert(s.subrange(0, i1) =~= d);
    assert(s.subrange(i1, i2) =~= c);
    assert(s.subrange(i2, i3) =~= r);
    assert(s.subrange(i3, i4) =~= f);
    assert(s.subrange(i4, s.len() as int) =~= e);
}

/// Parsing the canonical text of a request gives that request back; so
/// rendering it again gives the same text.
#[verifier::rlimit(100)]
pub proof fn canonical_round_trip(v: RequestView)
    requires
        request_ok(v),
    ensures
        spec_parse(v.spec_canonical()) == Ok::<RequestView, ParseError>(v),
        spec_parse(v.spec_canonical()) matches Ok(w) && w.spec_canonical() == v.spec_canonical(),
{
    let s = v.spec_canonical();
    let d = v.device;
    let c = v.property.spec_category();
    let r = v.range.spec_canonical();
    let f = v.property.spec_field();
    let e = v.event.spec_canonical();
    let i1 = d.len() as int;
    let i2 = i1 + c.len();
    let i3 = i2 + r.len();
    let i4 = i3 + f.len();
    lemma_category_token(v.property);
    lemma_field_token(v.property);
    lemma_first_chars(v.range, v.event);
    lemma_layout(d, c, r, f, e);
    lemma_device_stage(s, d);
    lemma_category_stage(s, i1, v.property, Property::Reading(ReadingField::Scaled));
    lemma_range_round(s, i2, v.range);
    lemma_field_stage(s, i3, v.property);
    lemma_event_round(s, i4, v.event);
    lemma_assemble(s, v, i1, i2, i3, i4);
}

proof fn lemma_parsed_device(s: Seq<char>)
    requires
        device_at(s) is Ok,
    ensures
        device_ok(device_at(s)->Ok_0.0),
{
    let h = word_end(s, 0);
    lemma_word_end_props(s, 0);
    lemma_word_end_props(s, h + 1);
    let t = word_end(s, h + 1);
    let d = s.subrange(0, h) + seq![':'] + s.subrange(h + 1, t);
    assert forall|k: int| 0 <= k < h implies is_word_char(#[trigger] d[k]) by {
        assert(d[k] == s[k]);
    }
    lemma_word_end_at(d, 0, h);
    assert forall|k: int| h + 1 <= k < d.len() implies is_word_char(#[trigger] d[k]) by {
        assert(d[k] == s[k]);
    }
    lemma_word_end_at(d, h + 1, d.len() as int);
}

/// Whatever the parser accepts, rendering the result and parsing that text
/// gives the same request again, and rendering it gives the same text.
pub proof fn parse_render_stable(s: Seq<char>)
    requires
        spec_parse(s) is Ok,
    ensures
        request_ok(spec_parse(s)->Ok_0),
        spec_parse(spec_parse(s)->Ok_0.spec_canonical()) == spec_parse(s),
{
    lemma_parsed_device(s);
    canonical_round_trip(spec_parse(s)->Ok_0);
}

} // verus!
