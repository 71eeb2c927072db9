//! Moving a remote desktop session to the console, so that the screen stays
//! capturable after the remote connection closes.

use vstd::prelude::*;
use crate::text;
use crate::text::{chars_of, decimal_of, eq_ignore_case, push_all, push_str, string_of, trim_chars};

verus! {

/// Whether the session is the console already: its name (`SESSIONNAME`) is
/// `console` in any ASCII case.
pub fn on_console(session_name: Option<&str>) -> (res: bool)
    ensures
        res == (session_name matches Some(n) && text::eq_ignore_ascii_case(n@, "console"@)),
{
    match session_name {
        Some(n) => {
            let a = chars_of(n);
            let b = chars_of("console");
            eq_ignore_case(a.as_slice(), b.as_slice())
        },
        None => false,
    }
}

/// Where `tscon.exe` is: under the Windows directory (`WINDIR`, by default
/// `C:\Windows`).
pub fn tscon_path(windir: Option<&str>) -> (res: String)
    ensures
        res@ == (match windir {
            Some(w) => w@,
            None => "C:\\Windows"@,
        }) + "\\System32\\tscon.exe"@,
{
    let mut s = match windir {
        Some(w) => string_of(chars_of(w).as_slice()),
        None => string_of(chars_of("C:\\Windows").as_slice()),
    };
    push_str(&mut s, "\\System32\\tscon.exe");
    s
}

fn with_session(head: &str, id: u32, tail: &str) -> (res: String)
    ensures
        res@ == head@ + text::decimal(id as nat) + tail@,
{
    let mut s = string_of(chars_of(head).as_slice());
    let d = decimal_of(id as u64);
    push_all(&mut s, d.as_slice());
    push_str(&mut s, tail);
    s
}

/// `"detaching RDP session <id> to console"`.
pub fn detached_message(id: u32) -> (res: String)
    ensures
        res@ == "detaching RDP session "@ + text::decimal(id as nat) + " to console"@,
{
    with_session("detaching RDP session ", id, " to console")
}

/// `"tscon failed for session <id>: <output, trimmed>"`.
pub fn tscon_failed_message(id: u32, output: &str) -> (res: String)
    ensures
        res@ == "tscon failed for session "@ + text::decimal(id as nat) + ": "@ + text::trim(output@),
{
    let mut s = with_session("tscon failed for session ", id, ": ");
    let o = chars_of(output);
    let t = trim_chars(o.as_slice());
    push_all(&mut s, t.as_slice());
    s
}

} // verus!
