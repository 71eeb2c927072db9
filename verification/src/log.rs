//! The format of a log line: a bracketed local timestamp, then the message.

use vstd::prelude::*;
use crate::text;
use crate::text::{decimal_of, push_str, string_of};

verus! {

/// `n` in decimal, padded with leading zeros to at least `width` characters
/// (what `{:0width$}` writes).
pub open spec fn zero_padded(n: nat, width: nat) -> Seq<char> {
    let d = text::decimal(n);
    if d.len() < width {
        Seq::new((width - d.len()) as nat, |i: int| '0') + d
    } else {
        d
    }
}

/// `[YYYY-MM-DD HH:MM:SS] message`.
pub open spec fn log_line(year: u16, month: u16, day: u16, hour: u16, minute: u16, second: u16, message: Seq<char>) -> Seq<char> {
    seq!['['] + zero_padded(year as nat, 4) + seq!['-'] + zero_padded(month as nat, 2) + seq!['-']
        + zero_padded(day as nat, 2) + seq![' '] + zero_padded(hour as nat, 2) + seq![':']
        + zero_padded(minute as nat, 2) + seq![':'] + zero_padded(second as nat, 2) + seq![']', ' ']
        + message
}

/// Appends `n` zero-padded to `width` characters.
fn push_padded(s: &mut Vec<char>, n: u16, width: usize)
    requires
        width <= 8,
    ensures
        final(s)@ == old(s)@ + zero_padded(n as nat, width as nat),
{
    let d = decimal_of(n as u64);
    let ghost start = s@;
    if d.len() < width {
        let pad = width - d.len();
        let mut i: usize = 0;
        while i < pad
            invariant
                i <= pad,
                s@ == start + Seq::new(i as nat, |k: int| '0'),
            decreases pad - i,
        {
            s.push('0');
            assert(Seq::new((i + 1) as nat, |k: int| '0') =~= Seq::new(i as nat, |k: int| '0').push('0'));
            i += 1;
        }
    }
    let mut j: usize = 0;
    let ghost mid = s@;
    while j < d.len()
        invariant
            j <= d@.len(),
            s@ == mid + d@.take(j as int),
        decreases d.len() - j,
    {
        s.push(d[j]);
        assert(d@.take(j + 1) =~= d@.take(j as int).push(d@[j as int]));
        j += 1;
    }
    assert(d@.take(d@.len() as int) =~= d@);
    assert(s@ =~= old(s)@ + zero_padded(n as nat, width as nat));
}

/// The log line for `message` at the given local time.
pub fn format_line(year: u16, month: u16, day: u16, hour: u16, minute: u16, second: u16, message: &str) -> (res: String)
    ensures
        res@ == log_line(year, month, day, hour, minute, second, message@),
{
    let mut cs: Vec<char> = Vec::new();
    cs.push('[');
    push_padded(&mut cs, year, 4);
    cs.push('-');
    push_padded(&mut cs, month, 2);
    cs.push('-');
    push_padded(&mut cs, day, 2);
    cs.push(' ');
    push_padded(&mut cs, hour, 2);
    cs.push(':');
    push_padded(&mut cs, minute, 2);
    cs.push(':');
    push_padded(&mut cs, second, 2);
    cs.push(']');
    cs.push(' ');
    let mut s = string_of(cs.as_slice());
    push_str(&mut s, message);
    assert(s@ =~= log_line(year, month, day, hour, minute, second, message@));
    s
}

} // verus!
