//! Fixed-precision text rendering for the two display lines.
//!
//! A reading is shown with exactly two fractional digits:
//! `Temp: 23.46°C` on the first line, `Humi: 55.10%` on the second.
//! The spec functions here say byte for byte what each line holds; the
//! exec functions produce those bytes and are proved to match.

use vstd::prelude::*;
use crate::reading::Reading;
use crate::fmtbuf::LINE_CAPACITY;

verus! {

/// Decimal digits of `n` as ASCII bytes, most significant first, no
/// leading zeros (a single `0` for zero itself).
pub open spec fn dec_digits(n: nat) -> Seq<u8>
    decreases n,
{
    if n < 10 {
        seq![(48 + n) as u8]
    } else {
        dec_digits(n / 10).push((48 + n % 10) as u8)
    }
}

/// A count of hundredths rendered with two fractional digits:
/// 2346 becomes `23.46`, 5 becomes `0.05`.
pub open spec fn fixed2_nonneg(centi: nat) -> Seq<u8> {
    dec_digits(centi / 100) + seq![46u8, (48 + (centi / 10) % 10) as u8, (48 + centi % 10) as u8]
}

/// Signed hundredths: a leading `-` for negative values.
pub open spec fn fixed2(centi: int) -> Seq<u8> {
    if centi < 0 {
        seq![45u8] + fixed2_nonneg((-centi) as nat)
    } else {
        fixed2_nonneg(centi as nat)
    }
}

/// The bytes of `"Temp: "`.
pub open spec fn temp_prefix() -> Seq<u8> {
    seq![84u8, 101u8, 109u8, 112u8, 58u8, 32u8]
}

/// The bytes of `"Humi: "`.
pub open spec fn humi_prefix() -> Seq<u8> {
    seq![72u8, 117u8, 109u8, 105u8, 58u8, 32u8]
}

/// The UTF-8 bytes of `"°C"`.
pub open spec fn degree_celsius() -> Seq<u8> {
    seq![194u8, 176u8, 67u8]
}

/// The bytes of `"%"`.
pub open spec fn percent_sign() -> Seq<u8> {
    seq![37u8]
}

/// The bytes of `"Error"`, shown in place of numbers when a sample
/// could not be taken.
pub open spec fn error_text() -> Seq<u8> {
    seq![69u8, 114u8, 114u8, 111u8, 114u8]
}

/// The whole first line for a temperature in hundredths of a degree.
pub open spec fn temp_line(temp_centi: int) -> Seq<u8> {
    temp_prefix() + fixed2(temp_centi) + degree_celsius()
}

/// The whole second line for a humidity in hundredths of a percent.
pub open spec fn humi_line(humi_centi: int) -> Seq<u8> {
    humi_prefix() + fixed2(humi_centi) + percent_sign()
}

fn push_dec_digits(out: &mut Vec<u8>, n: u64)
    ensures
        final(out)@ == old(out)@ + dec_digits(n as nat),
    decreases n,
{
    if n < 10 {
        let d: u8 = n as u8;
        out.push(48 + d);
        proof {
            assert(out@ =~= old(out)@ + dec_digits(n as nat));
        }
    } else {
        push_dec_digits(out, n / 10);
        let d: u8 = (n % 10) as u8;
        out.push(48 + d);
        proof {
            assert(out@ =~= old(out)@ + dec_digits(n as nat));
        }
    }
}

fn push_fixed2(out: &mut Vec<u8>, centi: i64)
    requires
        centi > i64::MIN,
    ensures
        final(out)@ == old(out)@ + fixed2(centi as int),
{
    let mag: u64 = if centi < 0 {
        out.push(45);
        (-centi) as u64
    } else {
        centi as u64
    };
    push_dec_digits(out, mag / 100);
    out.push(46);
    let t: u8 = ((mag / 10) % 10) as u8;
    out.push(48 + t);
    let o: u8 = (mag % 10) as u8;
    out.push(48 + o);
    proof {
        assert((mag as nat) / 10 % 10 == (mag / 10) % 10);
        assert(out@ =~= old(out)@ + fixed2(centi as int));
    }
}

/// Renders the first display line, e.g. `Temp: 23.46°C`.
pub fn render_temp_line(temp_centi: i32) -> (r: Vec<u8>)
    ensures
        r@ == temp_line(temp_centi as int),
{
    let mut out: Vec<u8> = Vec::new();
    out.push(84);
    out.push(101);
    out.push(109);
    out.push(112);
    out.push(58);
    out.push(32);
    proof {
        assert(out@ =~= temp_prefix());
    }
    push_fixed2(&mut out, temp_centi as i64);
    out.push(194);
    out.push(176);
    out.push(67);
    proof {
        assert(out@ =~= temp_line(temp_centi as int));
    }
    out
}

/// Renders the second display line, e.g. `Humi: 55.10%`.
pub fn render_humi_line(humi_centi: u32) -> (r: Vec<u8>)
    ensures
        r@ == humi_line(humi_centi as int),
{
    let mut out: Vec<u8> = Vec::new();
    out.push(72);
    out.push(117);
    out.push(109);
    out.push(105);
    out.push(58);
    out.push(32);
    proof {
        assert(out@ =~= humi_prefix());
    }
    push_fixed2(&mut out, humi_centi as i64);
    out.push(37);
    proof {
        assert(out@ =~= humi_line(humi_centi as int));
    }
    out
}

/// Renders the `Error` placeholder text.
pub fn render_error_text() -> (r: Vec<u8>)
    ensures
        r@ == error_text(),
{
    let mut out: Vec<u8> = Vec::new();
    out.push(69);
    out.push(114);
    out.push(114);
    out.push(111);
    out.push(114);
    proof {
        assert(out@ =~= error_text());
    }
    out
}

/// Every byte of `s` is an ASCII decimal digit.
pub open spec fn all_ascii_digits(s: Seq<u8>) -> bool {
    forall|i: int| 0 <= i < s.len() ==> 48 <= #[trigger] s[i] <= 57
}

pub proof fn lemma_dec_digits_bounds(n: nat)
    ensures
        dec_digits(n).len() >= 1,
        all_ascii_digits(dec_digits(n)),
        n < 10 ==> dec_digits(n).len() == 1,
        n < 100 ==> dec_digits(n).len() <= 2,
        n < 1000 ==> dec_digits(n).len() <= 3,
    decreases n,
{
    if n < 10 {
        assert(dec_digits(n) =~= seq![(48 + n) as u8]);
    } else {
        lemma_dec_digits_bounds(n / 10);
        let prev = dec_digits(n / 10);
        let whole = dec_digits(n);
        assert(whole =~= prev.push((48 + n % 10) as u8));
        assert forall|i: int| 0 <= i < whole.len() implies 48 <= #[trigger] whole[i] <= 57 by {
            if i < prev.len() {
                assert(whole[i] == prev[i]);
            } else {
                assert(whole[i] == (48 + n % 10) as u8);
            }
        }
    }
}

/// `s` is `sign`, then at least one digit, then `.`, then two digits.
pub open spec fn fixed2_shape(s: Seq<u8>, sign: Seq<u8>, whole: Seq<u8>, frac: Seq<u8>) -> bool {
    &&& s == sign + whole + seq![46u8] + frac
    &&& (sign == Seq::<u8>::empty() || sign == seq![45u8])
    &&& whole.len() >= 1
    &&& all_ascii_digits(whole)
    &&& frac.len() == 2
    &&& all_ascii_digits(frac)
}

/// `s` reads as `<sign><digits>.<2 digits>`.
pub open spec fn is_fixed2_text(s: Seq<u8>) -> bool {
    exists|p: (Seq<u8>, Seq<u8>, Seq<u8>)| #[trigger] fixed2_shape(s, p.0, p.1, p.2)
}

proof fn lemma_fixed2_nonneg_shape(centi: nat)
    ensures
        is_fixed2_text(fixed2_nonneg(centi)),
        fixed2_nonneg(centi).len() == dec_digits(centi / 100).len() + 3,
{
    lemma_dec_digits_bounds(centi / 100);
    let whole = dec_digits(centi / 100);
    let frac = seq![(48 + (centi / 10) % 10) as u8, (48 + centi % 10) as u8];
    let p = (Seq::<u8>::empty(), whole, frac);
    assert(fixed2_nonneg(centi) =~= p.0 + whole + seq![46u8] + frac);
    assert(all_ascii_digits(frac)) by {
        assert(frac[0] == (48 + (centi / 10) % 10) as u8);
        assert(frac[1] == (48 + centi % 10) as u8);
    }
    assert(fixed2_shape(fixed2_nonneg(centi), p.0, p.1, p.2));
}

proof fn lemma_fixed2_shape(centi: int)
    ensures
        is_fixed2_text(fixed2(centi)),
        centi >= 0 ==> fixed2(centi).len() == dec_digits(centi as nat / 100).len() + 3,
        centi < 0 ==> fixed2(centi).len() == dec_digits((-centi) as nat / 100).len() + 4,
{
    if centi < 0 {
        let mag = (-centi) as nat;
        lemma_fixed2_nonneg_shape(mag);
        lemma_dec_digits_bounds(mag / 100);
        let whole = dec_digits(mag / 100);
        let frac = seq![(48 + (mag / 10) % 10) as u8, (48 + mag % 10) as u8];
        let p = (seq![45u8], whole, frac);
        assert(fixed2(centi) =~= p.0 + whole + seq![46u8] + frac);
        assert(all_ascii_digits(frac)) by {
            assert(frac[0] == (48 + (mag / 10) % 10) as u8);
            assert(frac[1] == (48 + mag % 10) as u8);
        }
        assert(fixed2_shape(fixed2(centi), p.0, p.1, p.2));
    } else {
        lemma_fixed2_nonneg_shape(centi as nat);
    }
}

/// Law: for every in-range reading, both rendered lines read as
/// `<prefix><sign><digits>.<2 digits><unit>` and fit a line buffer.
pub proof fn valid_reading_lines_fit(r: Reading)
    requires
        r.wf(),
    ensures
        temp_line(r.temp_centi as int).len() <= LINE_CAPACITY as int,
        humi_line(r.humi_centi as int).len() <= LINE_CAPACITY as int,
        is_fixed2_text(fixed2(r.temp_centi as int)),
        is_fixed2_text(fixed2(r.humi_centi as int)),
{
    let t = r.temp_centi as int;
    let h = r.humi_centi as int;
    lemma_fixed2_shape(t);
    lemma_fixed2_shape(h);
    if t < 0 {
        lemma_dec_digits_bounds((-t) as nat / 100);
    } else {
        lemma_dec_digits_bounds(t as nat / 100);
    }
    lemma_dec_digits_bounds(h as nat / 100);
}

} // verus!
