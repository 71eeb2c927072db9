//! The scripts: the schedule controller and the two game loops.

use vstd::prelude::*;
use crate::text;
use crate::text::{decimal_of, push_all, push_str, string_of, chars_of};

pub mod controller;
pub mod hunzhu;
pub mod yingxionggu;

verus! {

/// `"第 <round> 轮" + tail`: a log line about one round.
pub open spec fn round_line(round: nat, tail: Seq<char>) -> Seq<char> {
    "第 "@ + text::decimal(round) + tail
}

/// The log line `"第 <round> 轮" + tail`.
pub fn round_message(round: u64, tail: &str) -> (res: String)
    ensures
        res@ == round_line(round as nat, tail@),
{
    let mut s = string_of(chars_of("第 ").as_slice());
    let d = decimal_of(round);
    push_all(&mut s, d.as_slice());
    push_str(&mut s, tail);
    s
}

/// A string holding `s`.
pub fn owned(s: &str) -> (res: String)
    ensures
        res@ == s@,
{
    string_of(chars_of(s).as_slice())
}

} // verus!
