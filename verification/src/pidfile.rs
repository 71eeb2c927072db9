//! Pid files: a record of a started process (its pid and executable path),
//! and the rule that a recorded process is terminated only while its
//! executable path still matches the record.

use vstd::prelude::*;
use crate::text;
use crate::text::{chars_of, decimal_of, eq_ignore_case, line_len_of, parse_u32_chars, push_str, slice_chars, string_of, trim_chars};

verus! {

/// The text of a pid file: the pid in decimal, a line feed, the executable path.
pub open spec fn record_text(pid: u32, exe: Seq<char>) -> Seq<char> {
    text::decimal(pid as nat) + seq!['\n'] + exe
}

/// The pid that a pid file's text records: its first line, trimmed and parsed,
/// or 0 where that fails.
pub open spec fn recorded_pid(text: Seq<char>) -> u32 {
    match text::parse_u32(text::trim(text::first_line(text))) {
        Some(p) => p,
        None => 0,
    }
}

/// The executable path that a pid file's text records: its second line,
/// trimmed, or nothing.
pub open spec fn recorded_exe(text: Seq<char>) -> Seq<char> {
    text::trim(text::first_line(text::after_first_line(text)))
}

/// The text recorded for `pid` started from `exe`.
pub fn write(pid: u32, exe: &str) -> (res: String)
    ensures
        res@ == record_text(pid, exe@),
{
    let mut cs = decimal_of(pid as u64);
    cs.push('\n');
    let mut s = string_of(cs.as_slice());
    push_str(&mut s, exe);
    s
}

/// Reads back a pid file's text: the recorded pid (0 where the first line is
/// no number) and the recorded executable path (empty where there is none).
pub fn read(text: &str) -> (res: (u32, String))
    ensures
        res.0 == recorded_pid(text@),
        res.1@ == recorded_exe(text@),
{
    let cs = chars_of(text);
    let n = cs.len();
    let k = line_len_of(cs.as_slice());
    proof {
        text::lemma_line_len_bound(cs@);
    }
    let first = slice_chars(cs.as_slice(), 0, k);
    assert(first@ =~= text::first_line(cs@));
    let first_trimmed = trim_chars(first.as_slice());
    let pid = match parse_u32_chars(first_trimmed.as_slice()) {
        Some(p) => p,
        None => 0,
    };
    let rest: Vec<char> = if k < n {
        slice_chars(cs.as_slice(), k + 1, n)
    } else {
        Vec::new()
    };
    assert(rest@ =~= text::after_first_line(cs@));
    let k2 = line_len_of(rest.as_slice());
    proof {
        text::lemma_line_len_bound(rest@);
    }
    let second = slice_chars(rest.as_slice(), 0, k2);
    assert(second@ =~= text::first_line(rest@));
    let second_trimmed = trim_chars(second.as_slice());
    (pid, string_of(second_trimmed.as_slice()))
}

/// Reading back what was written gives the pid and the trimmed path, for any
/// path without a line feed.
pub proof fn lemma_read_after_write(pid: u32, exe: Seq<char>)
    requires
        text::no_newline(exe),
    ensures
        recorded_pid(record_text(pid, exe)) == pid,
        recorded_exe(record_text(pid, exe)) == text::trim(exe),
{
    let d = text::decimal(pid as nat);
    text::lemma_decimal(pid as nat);
    let text = record_text(pid, exe);
    assert(text::no_newline(d)) by {
        assert forall|i: int| 0 <= i < d.len() implies d[i] != '\n' by {
            assert(text::is_digit(d[i]));
        }
    }
    text::lemma_line_len_prefix(d, seq!['\n'] + exe);
    assert(text =~= d + (seq!['\n'] + exe));
    assert(text::line_len(seq!['\n'] + exe) == 0);
    assert(text::first_line(text) =~= d);
    text::lemma_digits_trimmed(d);
    assert(text::parse_u32(d) == Some(pid));
    assert(text::after_first_line(text) =~= exe);
    text::lemma_line_len_prefix(exe, Seq::<char>::empty());
    assert(exe + Seq::<char>::empty() =~= exe);
    assert(text::first_line(exe) =~= exe);
}

} // verus!

verus! {

/// What the platform layer does for one step of terminating a recorded process.
pub enum OwnedKillAction {
    /// Delete the pid file.
    Clear,
    /// Write this line to the log.
    Log(String),
    /// Look up the executable path of this pid and report it.
    QueryExePath(u32),
    /// Terminate this pid and report whether that succeeded.
    Kill(u32),
}

/// What the platform layer reports back.
pub enum OwnedKillEvent {
    /// Whether the recorded pid is a live process.
    Alive(bool),
    /// The executable path of the recorded pid.
    ExePath(String),
    /// Whether terminating the recorded pid succeeded.
    Killed(bool),
}

/// An action, with its strings taken as character sequences.
pub ghost enum KillActionView {
    Clear,
    Log(Seq<char>),
    QueryExePath(u32),
    Kill(u32),
}

impl View for OwnedKillAction {
    type V = KillActionView;

    open spec fn view(&self) -> KillActionView {
        match self {
            OwnedKillAction::Clear => KillActionView::Clear,
            OwnedKillAction::Log(s) => KillActionView::Log(s@),
            OwnedKillAction::QueryExePath(p) => KillActionView::QueryExePath(*p),
            OwnedKillAction::Kill(p) => KillActionView::Kill(*p),
        }
    }
}

/// Terminating the process that a pid file records, only while its
/// executable path still matches the record.
pub struct OwnedKill {
    pub pid: u32,
    pub expected: String,
    pub label: String,
}

/// `"skip killing <label> pid=<pid>: <why>"`.
pub open spec fn skip_message(label: Seq<char>, pid: u32, why: Seq<char>) -> Seq<char> {
    "skip killing "@ + label + " pid="@ + text::decimal(pid as nat) + ": "@ + why
}

/// `"killed <label> pid=<pid>"`.
pub open spec fn killed_message(label: Seq<char>, pid: u32) -> Seq<char> {
    "killed "@ + label + " pid="@ + text::decimal(pid as nat)
}

/// The actions that answer `event` for the record `(pid, expected)`.
pub open spec fn owned_kill_plan(pid: u32, expected: Seq<char>, label: Seq<char>, event: OwnedKillEvent) -> Seq<KillActionView> {
    match event {
        OwnedKillEvent::Alive(alive) => {
            if !alive {
                seq![KillActionView::Clear]
            } else if expected.len() == 0 {
                seq![KillActionView::Log(skip_message(label, pid, "missing recorded exe path"@))]
            } else {
                seq![KillActionView::QueryExePath(pid)]
            }
        },
        OwnedKillEvent::ExePath(actual) => {
            if !text::eq_ignore_ascii_case(actual@, expected) {
                seq![
                    KillActionView::Log(skip_message(label, pid, "exe path mismatch"@)),
                    KillActionView::Clear,
                ]
            } else {
                seq![KillActionView::Kill(pid)]
            }
        },
        OwnedKillEvent::Killed(ok) => {
            if ok {
                seq![KillActionView::Log(killed_message(label, pid)), KillActionView::Clear]
            } else {
                seq![KillActionView::Clear]
            }
        },
    }
}

/// The view of each action in turn.
pub open spec fn action_views(actions: Seq<OwnedKillAction>) -> Seq<KillActionView> {
    actions.map_values(|a: OwnedKillAction| a@)
}

fn message_prefix(head: &str, label: &str, pid: u32) -> (res: String)
    ensures
        res@ == head@ + label@ + " pid="@ + text::decimal(pid as nat),
{
    let mut s = String::new();
    push_str(&mut s, head);
    push_str(&mut s, label);
    push_str(&mut s, " pid=");
    let d = decimal_of(pid as u64);
    crate::text::push_all(&mut s, d.as_slice());
    assert(s@ =~= head@ + label@ + " pid="@ + text::decimal(pid as nat));
    s
}

fn skip_line(label: &str, pid: u32, why: &str) -> (res: String)
    ensures
        res@ == skip_message(label@, pid, why@),
{
    let mut s = message_prefix("skip killing ", label, pid);
    push_str(&mut s, ": ");
    push_str(&mut s, why);
    s
}

/// Starts terminating the process recorded in a pid file with this text (the
/// empty text where the file cannot be read); `label` names it in the log.
/// The platform layer first reports whether the recorded pid is alive.
pub fn kill_if_owned(text: &str, label: &str) -> (res: OwnedKill)
    ensures
        res.pid == recorded_pid(text@),
        res.expected@ == recorded_exe(text@),
        res.label@ == label@,
{
    let (pid, expected) = read(text);
    OwnedKill { pid, expected, label: string_of(chars_of(label).as_slice()) }
}

impl OwnedKill {
    /// The actions that answer one report of the platform layer.
    pub fn step(&self, event: &OwnedKillEvent) -> (res: Vec<OwnedKillAction>)
        ensures
            action_views(res@) == owned_kill_plan(self.pid, self.expected@, self.label@, *event),
    {
        let mut res: Vec<OwnedKillAction> = Vec::new();
        match event {
            OwnedKillEvent::Alive(alive) => {
                if !*alive {
                    res.push(OwnedKillAction::Clear);
                } else if self.expected.as_str().is_empty() {
                    res.push(OwnedKillAction::Log(skip_line(self.label.as_str(), self.pid, "missing recorded exe path")));
                } else {
                    res.push(OwnedKillAction::QueryExePath(self.pid));
                }
            },
            OwnedKillEvent::ExePath(actual) => {
                let a = chars_of(actual.as_str());
                let e = chars_of(self.expected.as_str());
                if !eq_ignore_case(a.as_slice(), e.as_slice()) {
                    res.push(OwnedKillAction::Log(skip_line(self.label.as_str(), self.pid, "exe path mismatch")));
                    res.push(OwnedKillAction::Clear);
                } else {
                    res.push(OwnedKillAction::Kill(self.pid));
                }
            },
            OwnedKillEvent::Killed(ok) => {
                if *ok {
                    let s = message_prefix("killed ", self.label.as_str(), self.pid);
                    res.push(OwnedKillAction::Log(s));
                    res.push(OwnedKillAction::Clear);
                } else {
                    res.push(OwnedKillAction::Clear);
                }
            },
        }
        assert(action_views(res@) =~= owned_kill_plan(self.pid, self.expected@, self.label@, *event));
        res
    }
}

/// A recorded process is terminated only in answer to its executable path,
/// and only when that path equals the recorded one (ignoring ASCII case); a
/// dead or path-less record never leads to a termination.
pub proof fn lemma_kill_only_if_owned(pid: u32, expected: Seq<char>, label: Seq<char>, event: OwnedKillEvent)
    ensures
        owned_kill_plan(pid, expected, label, event).contains(KillActionView::Kill(pid)) ==> (event matches OwnedKillEvent::ExePath(actual)
            && text::eq_ignore_ascii_case(actual@, expected)),
        forall|p: u32| #![auto] p != pid ==> !owned_kill_plan(pid, expected, label, event).contains(KillActionView::Kill(p)),
        event is Alive ==> !owned_kill_plan(pid, expected, label, event).contains(KillActionView::Kill(pid)),
{
    let plan = owned_kill_plan(pid, expected, label, event);
    assert forall|p: u32| #![auto] plan.contains(KillActionView::Kill(p)) implies p == pid && (event matches OwnedKillEvent::ExePath(actual)
        && text::eq_ignore_ascii_case(actual@, expected)) by {
        let i = choose|i: int| 0 <= i < plan.len() && plan[i] == KillActionView::Kill(p);
    }
}

} // verus!
