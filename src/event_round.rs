//! A canonical event reads back as the event it was written from.

use crate::entity::{spec_delay, ClockType, Event, ParseError, StateOp};
use crate::event::{bool_at, clock_at, clock_event_at, delay_at, event_at, op_at, state_at};
use crate::numeral::{
    lemma_dec_round, lemma_dec_str, lemma_hex_round, lemma_hex_str, lemma_part, lemma_word_end_at,
};
use crate::text::{ci_eq, dec_str, hex_str, is_word_char, word_end};
use vstd::prelude::*;

verus! {

/// The character at `j` cannot continue a numeral or a unit: a comma, or
/// nothing.
pub open spec fn ends_field(s: Seq<char>, j: int) -> bool {
    j == s.len() || (0 <= j < s.len() && s[j] == ',')
}

/// A canonical duration, followed by a comma or nothing, reads back as its
/// number of microseconds.
pub proof fn lemma_delay_round(s: Seq<char>, i: int, d: nat)
    requires
        d <= 0xffff_ffff,
        0 <= i,
        i + spec_delay(d).len() <= s.len(),
        s.subrange(i, i + spec_delay(d).len()) == spec_delay(d),
        ends_field(s, i + spec_delay(d).len()),
    ensures
        delay_at(s, i) == Ok::<(nat, int), ParseError>((d, i + spec_delay(d).len())),
{
    let w = spec_delay(d);
    assert(w.subrange(0, w.len() as int) =~= w);
    lemma_part(s, i, w, 0, w);
    if d == 0 {
        assert(dec_str(0) =~= seq!['0']);
        lemma_dec_round(s, i, 0, 0xffff_ffff);
    } else if d % 1_000_000 == 0 {
        let q = d / 1_000_000;
        let dq = dec_str(q);
        assert(w.subrange(0, dq.len() as int) =~= dq);
        lemma_part(s, i, w, 0, dq);
        assert(s[i + dq.len()] == w[dq.len() as int]);
        lemma_dec_round(s, i, q, 0xffff_ffff);
    } else if d % 1000 == 0 {
        let q = d / 1000;
        lemma_dec_round(s, i, q, 0xffff_ffff);
    } else {
        let dq = dec_str(d);
        assert(w.subrange(0, dq.len() as int) =~= dq);
        lemma_part(s, i, w, 0, dq);
        assert(s[i + dq.len()] == w[dq.len() as int]);
        lemma_dec_round(s, i, d, 0xffff_ffff);
    }
}

/// The canonical truth value, ending the text, reads back.
pub proof fn lemma_bool_round(s: Seq<char>, i: int, b: bool)
    requires
        0 <= i <= s.len(),
        s.subrange(i, s.len() as int) == (if b {
            "TRUE"@
        } else {
            "FALSE"@
        }),
    ensures
        bool_at(s, i) == Ok::<(bool, int), ParseError>((b, s.len() as int)),
{
    reveal_strlit("TRUE");
    reveal_strlit("FALSE");
    reveal_strlit("T");
    reveal_strlit("F");
    let w = s.subrange(i, s.len() as int);
    assert forall|k: int| i <= k < s.len() implies is_word_char(#[trigger] s[k]) by {
        assert(s[k] == w[k - i]);
    }
    lemma_word_end_at(s, i, s.len() as int);
    assert(s.subrange(i, word_end(s, i)) == w);
    if b {
        assert(ci_eq(w, "TRUE"@));
    } else {
        assert(!ci_eq(w, "TRUE"@));
        assert(!ci_eq(w, "T"@));
        assert(ci_eq(w, "FALSE"@));
    }
}

pub proof fn lemma_op_round(s: Seq<char>, i: int, op: StateOp)
    requires
        0 <= i <= s.len(),
        s.subrange(i, s.len() as int) == op.spec_canonical(),
    ensures
        op_at(s, i) == Ok::<(StateOp, int), ParseError>((op, s.len() as int)),
{
    let w = op.spec_canonical();
    assert(w.len() >= 1);
    assert(s[i] == s.subrange(i, s.len() as int)[0]);
    if w.len() == 2 {
        assert(s[i + 1] == s.subrange(i, s.len() as int)[1]);
    }
}

#[verifier::rlimit(40)]
pub proof fn lemma_periodic_round(s: Seq<char>, i: int, e: Event)
    requires
        e is Periodic,
        0 <= i <= s.len(),
        s.subrange(i, s.len() as int) == e.spec_canonical(),
    ensures
        event_at(s, i) == Ok::<(Event, int), ParseError>((e, s.len() as int)),
{
    let w = e.spec_canonical();
    if let Event::Periodic { period, immediate, skip_dups } = e {
        let c = if skip_dups { 'Q' } else { 'P' };
        let d = spec_delay(period as nat);
        let b: Seq<char> = if immediate { "TRUE"@ } else { "FALSE"@ };
        assert(w =~= seq!['@', c, ','] + d + seq![','] + b);
        assert(w.subrange(0, w.len() as int) =~= w);
        lemma_part(s, i, w, 0, w);
        assert(s[i] == w[0]);
        assert(s[i + 1] == w[1]);
        assert(s[i + 2] == w[2]);
        assert(w.subrange(3, 3 + d.len() as int) =~= d);
        lemma_part(s, i, w, 3, d);
        assert(s[i + 3 + d.len()] == w[3 + d.len() as int]);
        lemma_delay_round(s, i + 3, period as nat);
        assert(s.subrange(i + 4 + d.len(), s.len() as int) =~= b) by {
            assert forall|k: int| 0 <= k < b.len() implies s[i + 4 + d.len() + k] == #[trigger] b[k] by {
                assert(s.subrange(i, s.len() as int)[4 + d.len() + k] == w[4 + d.len() + k]);
            }
        }
        lemma_bool_round(s, i + 4 + d.len(), immediate);
    }
}

#[verifier::rlimit(100)]
pub proof fn lemma_clock_round(s: Seq<char>, i: int, e: Event)
    requires
        e is Clock,
        0 <= i <= s.len(),
        s.subrange(i, s.len() as int) == e.spec_canonical(),
    ensures
        event_at(s, i) == Ok::<(Event, int), ParseError>((e, s.len() as int)),
{
    let w = e.spec_canonical();
    if let Event::Clock { event, clk_type, delay } = e {
        let h = hex_str(event as nat);
        let d = spec_delay(delay as nat);
        lemma_hex_str(event as nat);
        assert(w =~= seq!['@', 'E', ','] + h + seq![',', clk_type.spec_letter(), ','] + d);
        assert(w.subrange(0, w.len() as int) =~= w);
        lemma_part(s, i, w, 0, w);
        assert(s[i] == w[0]);
        assert(s[i + 1] == w[1]);
        assert(s[i + 2] == w[2]);
        assert(w.subrange(3, 3 + h.len() as int) =~= h);
        lemma_part(s, i, w, 3, h);
        assert(s[i + 3 + h.len()] == w[3 + h.len() as int]);
        assert(s[i + 4 + h.len()] == w[4 + h.len() as int]);
        assert(s[i + 5 + h.len()] == w[5 + h.len() as int]);
        lemma_hex_round(s, i + 3, event as nat, 0xffff);
        assert(w.subrange(6 + h.len() as int, 6 + h.len() + d.len() as int) =~= d);
        lemma_part(s, i, w, 6 + h.len() as int, d);
        lemma_delay_round(s, i + 6 + h.len(), delay as nat);
        assert(clock_at(s, i + 4 + h.len()) == Ok::<(ClockType, int), ParseError>((clk_type, i + 5 + h.len())));
        assert(clock_event_at(s, i + 2) == Ok::<(Event, int), ParseError>((e, s.len() as int)));
    }
}

/// The parts of a state event, in place, read back as that event.
#[verifier::rlimit(100)]
pub proof fn lemma_state_parts(s: Seq<char>, i: int, e: Event, pv: int, pd: int, po: int)
    requires
        e is State,
        0 <= i,
        i + 3 <= pv,
        s[i] == '@',
        s[i + 1] == 'S',
        s[i + 2] == ',',
        ({
            let a = dec_str(e->State_device as nat);
            let v = dec_str(e->State_value as nat);
            let d = spec_delay(e->State_delay as nat);
            &&& pv == i + 3 + a.len() + 1
            &&& pd == pv + v.len() + 1
            &&& po == pd + d.len() + 1
            &&& po <= s.len()
            &&& s.subrange(i + 3, i + 3 + a.len()) == a
            &&& s[pv - 1] == ','
            &&& s.subrange(pv, pv + v.len()) == v
            &&& s[pd - 1] == ','
            &&& s.subrange(pd, pd + d.len()) == d
            &&& s[po - 1] == ','
            &&& s.subrange(po, s.len() as int) == e->State_expr.spec_canonical()
        }),
    ensures
        event_at(s, i) == Ok::<(Event, int), ParseError>((e, s.len() as int)),
{
    if let Event::State { device, value, delay, expr } = e {
        lemma_dec_str(device as nat);
        lemma_dec_str(value as nat);
        lemma_dec_round(s, i + 3, device as nat, 0xffff_ffff);
        lemma_dec_round(s, pv, value as nat, 0xffff);
        lemma_delay_round(s, pd, delay as nat);
        lemma_op_round(s, po, expr);
        assert(state_at(s, i + 2) == Ok::<(Event, int), ParseError>((e, s.len() as int)));
    }
}

#[verifier::rlimit(100)]
pub proof fn lemma_state_round(s: Seq<char>, i: int, e: Event)
    requires
        e is State,
        0 <= i <= s.len(),
        s.subrange(i, s.len() as int) == e.spec_canonical(),
    ensures
        event_at(s, i) == Ok::<(Event, int), ParseError>((e, s.len() as int)),
{
    let w = e.spec_canonical();
    if let Event::State { device, value, delay, expr } = e {
        let a = dec_str(device as nat);
        let v = dec_str(value as nat);
        let d = spec_delay(delay as nat);
        let o = expr.spec_canonical();
        let pa = 3int;
        let pv = pa + a.len() + 1;
        let pd = pv + v.len() + 1;
        let po = pd + d.len() + 1;
        assert(w =~= seq!['@', 'S', ','] + a + seq![','] + v + seq![','] + d + seq![','] + o);
        assert(w.subrange(0, w.len() as int) =~= w);
        lemma_part(s, i, w, 0, w);
        assert(s[i] == w[0]);
        assert(s[i + 1] == w[1]);
        assert(s[i + 2] == w[2]);
        assert(w.subrange(pa, pa + a.len()) =~= a);
        lemma_part(s, i, w, pa, a);
        assert(s[i + pv - 1] == w[pv - 1]);
        assert(w.subrange(pv, pv + v.len()) =~= v);
        lemma_part(s, i, w, pv, v);
        assert(s[i + pd - 1] == w[pd - 1]);
        assert(w.subrange(pd, pd + d.len()) =~= d);
        lemma_part(s, i, w, pd, d);
        assert(s[i + po - 1] == w[po - 1]);
        assert(s.subrange(i + po, s.len() as int) =~= o) by {
            assert forall|k: int| 0 <= k < o.len() implies s[i + po + k] == #[trigger] o[k] by {
                assert(s.subrange(i, s.len() as int)[po + k] == w[po + k]);
            }
        }
        lemma_state_parts(s, i, e, i + pv, i + pd, i + po);
    }
}

/// The canonical text of an event, ending the text, reads back as that event.
pub proof fn lemma_event_round(s: Seq<char>, i: int, e: Event)
    requires
        0 <= i <= s.len(),
        s.subrange(i, s.len() as int) == e.spec_canonical(),
    ensures
        event_at(s, i) == Ok::<(Event, int), ParseError>((e, s.len() as int)),
{
    let w = e.spec_canonical();
    match e {
        Event::Periodic { .. } => lemma_periodic_round(s, i, e),
        Event::Clock { .. } => lemma_clock_round(s, i, e),
        Event::State { .. } => lemma_state_round(s, i, e),
        _ => {
            if w.len() > 0 {
                assert(s[i] == s.subrange(i, s.len() as int)[0]);
                assert(s[i + 1] == s.subrange(i, s.len() as int)[1]);
            }
        },
    }
}

} // verus!
