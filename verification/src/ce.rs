//! Cheat Engine: finding its executable, the autorun script that patches the
//! game, the script's file name, and closing the instance this bot started.

use vstd::prelude::*;
use crate::config;
use crate::pidfile::{self, OwnedKill};
use crate::text;
use crate::text::{chars_of, ends_with_chars, eq_ignore_case, push_all, push_str, starts_with_chars, string_of, trim_end_matches_chars};

verus! {

/// Executable names looked for in a Cheat Engine directory, in order.
pub const CE_EXE_NAMES: [&'static str; 3] = ["cheatengine-x86_64.exe", "Cheat Engine.exe", "cheatengine-i386.exe"];

/// The prefix of the autorun scripts this bot writes.
pub const SCRIPT_PREFIX: &'static str = "mfhq_patch_";

/// The suffix of the autorun scripts this bot writes.
pub const SCRIPT_SUFFIX: &'static str = ".lua";

pub const LUA_HEAD: &'static str = "local processName = \"";
pub const LUA_AFTER_PROCESS: &'static str = "\"\nlocal processKeyword = \"";
pub const LUA_AFTER_KEYWORD: &'static str = "\"\nlocal scanValue = \"";
pub const LUA_AFTER_SCAN: &'static str = "\"\nlocal writeValue = ";
pub const LUA_AFTER_WRITE: &'static str = "\nlocal scriptPath = [[";
pub const LUA_AFTER_SCRIPT: &'static str = "]]\nlocal logPath = [[";
pub const LUA_TAIL: &'static str = "]]\n\nlocal function log(message)\n  local f = io.open(logPath, \"a\")\n  if f then\n    f:write(os.date(\"[%Y-%m-%d %H:%M:%S] \") .. message .. \"\\n\")\n    f:close()\n  end\nend\n\nlocal function findTargetPid()\n  local okPid, pid = pcall(getProcessIDFromProcessName, processName)\n  if okPid and pid and pid ~= 0 then\n    log(\"found exact process: \" .. processName .. \" pid=\" .. tostring(pid))\n    return pid\n  end\n\n  local list = createStringlist()\n  getProcesslist(list)\n  local keyword = string.lower(processKeyword)\n  for i = 0, list.Count - 1 do\n    local entry = list[i]\n    if entry and string.find(string.lower(entry), keyword, 1, true) then\n      local hexPid = string.sub(entry, 1, 8)\n      local matchedPid = tonumber(hexPid, 16)\n      list.destroy()\n      log(\"found keyword process: \" .. entry .. \" pid=\" .. tostring(matchedPid))\n      return matchedPid\n    end\n  end\n  list.destroy()\n  return nil\nend\n\nlocal function runPatch()\n  log(\"patch script started\")\n  local ok, err = pcall(function()\n    local opened = false\n    for i = 1, 10 do\n      local pid = findTargetPid()\n      if pid and pid ~= 0 then\n        openProcess(pid)\n        opened = true\n        break\n      end\n      sleep(1000)\n    end\n\n    if not opened then\n      log(\"failed to open process by keyword: \" .. processKeyword)\n      return\n    end\n\n    local ms = createMemScan()\n    ms.firstScan(soExactValue, vtDouble, rtRounded, scanValue, \"\", \"00000000\", \"7fffffff\", \"\",\n      fsmNotAligned, \"\", false, false, false, false)\n    ms.waitTillDone()\n\n    local fl = createFoundList(ms)\n    fl.initialize()\n\n    local count = tonumber(fl.Count) or 0\n    for i = 0, count - 1 do\n      writeDouble(fl.Address[i], writeValue)\n    end\n\n    log(\"patched \" .. count .. \" address(es): \" .. scanValue .. \" -> \" .. tostring(writeValue))\n    fl.destroy()\n    ms.destroy()\n  end)\n\n  if not ok then\n    log(\"patch error: \" .. tostring(err))\n  end\n  pcall(function() os.remove(scriptPath) end)\nend\n\nlocal timer = createTimer(nil, false)\ntimer.Interval = 3000\ntimer.OnTimer = function(t)\n  t.destroy()\n  runPatch()\nend\ntimer.Enabled = true\n";

/// Closes the Cheat Engine that this bot started: terminates the process its
/// pid file records (given that file's text), if its path still matches.
pub fn close(pid_text: &str) -> (res: OwnedKill)
    ensures
        res.pid == pidfile::recorded_pid(pid_text@),
        res.expected@ == pidfile::recorded_exe(pid_text@),
        res.label@ == "Cheat Engine"@,
{
    pidfile::kill_if_owned(pid_text, "Cheat Engine")
}

/// The autorun script: once Cheat Engine runs, it opens the game's process,
/// scans for the double `scan` and writes `write` over every hit, logging to
/// `log_path` and deleting itself from `script_path`.
pub open spec fn lua_text(process: Seq<char>, keyword: Seq<char>, scan: i64, write: i64, script_path: Seq<char>, log_path: Seq<char>) -> Seq<char> {
    LUA_HEAD@ + process + LUA_AFTER_PROCESS@ + keyword + LUA_AFTER_KEYWORD@ + text::signed_decimal(scan as int)
        + LUA_AFTER_SCAN@ + text::signed_decimal(write as int) + LUA_AFTER_WRITE@ + script_path
        + LUA_AFTER_SCRIPT@ + log_path + LUA_TAIL@
}

/// The autorun script for the game's first process name, its keyword being
/// that name without `.exe`.
pub fn lua_script(scan_value: i64, write_value: i64, script_path: &str, log_path: &str) -> (res: String)
    ensures
        res@ == lua_text(
            config::GAME_PROCESS_NAMES[0]@,
            text::trim_end_matches(config::GAME_PROCESS_NAMES[0]@, ".exe"@),
            scan_value,
            write_value,
            script_path@,
            log_path@,
        ),
{
    let names = config::GAME_PROCESS_NAMES;
    let process = names[0];
    let p = chars_of(process);
    let ext = chars_of(".exe");
    let keyword = trim_end_matches_chars(p.as_slice(), ext.as_slice());
    let mut s = string_of(chars_of(LUA_HEAD).as_slice());
    push_str(&mut s, process);
    push_str(&mut s, LUA_AFTER_PROCESS);
    push_all(&mut s, keyword.as_slice());
    push_str(&mut s, LUA_AFTER_KEYWORD);
    let mut n: Vec<char> = Vec::new();
    text::push_signed_decimal(&mut n, scan_value);
    push_all(&mut s, n.as_slice());
    push_str(&mut s, LUA_AFTER_SCAN);
    let mut m: Vec<char> = Vec::new();
    text::push_signed_decimal(&mut m, write_value);
    push_all(&mut s, m.as_slice());
    push_str(&mut s, LUA_AFTER_WRITE);
    push_str(&mut s, script_path);
    push_str(&mut s, LUA_AFTER_SCRIPT);
    push_str(&mut s, log_path);
    push_str(&mut s, LUA_TAIL);
    s
}

/// A value as it stands in a script's file name: its decimal numeral, with
/// `neg` in place of a minus sign.
pub open spec fn name_number(v: i64) -> Seq<char> {
    if v < 0 {
        "neg"@ + text::decimal((-(v as int)) as nat)
    } else {
        text::decimal(v as nat)
    }
}

/// `mfhq_patch_<scan>_to_<write>.lua`.
pub open spec fn script_file_name(scan: i64, write: i64) -> Seq<char> {
    SCRIPT_PREFIX@ + name_number(scan) + "_to_"@ + name_number(write) + SCRIPT_SUFFIX@
}

fn push_name_number(s: &mut String, v: i64)
    ensures
        final(s)@ == old(s)@ + name_number(v),
{
    let mut d: Vec<char> = Vec::new();
    if v < 0 {
        push_str(s, "neg");
        let m: u64 = (-(v as i128)) as u64;
        text::push_decimal(&mut d, m);
    } else {
        text::push_decimal(&mut d, v as u64);
    }
    assert(d@ =~= Seq::<char>::empty() + d@);
    push_all(s, d.as_slice());
    assert(final(s)@ =~= old(s)@ + name_number(v));
}

/// The file name of the autorun script that patches `scan` to `write`.
pub fn script_name(scan_value: i64, write_value: i64) -> (res: String)
    ensures
        res@ == script_file_name(scan_value, write_value),
{
    let mut s = string_of(chars_of(SCRIPT_PREFIX).as_slice());
    push_name_number(&mut s, scan_value);
    push_str(&mut s, "_to_");
    push_name_number(&mut s, write_value);
    push_str(&mut s, SCRIPT_SUFFIX);
    s
}

/// Whether a file in Cheat Engine's autorun directory is an earlier patch
/// script of this bot (and is to be deleted).
pub fn is_patch_script(file_name: &str) -> (res: bool)
    ensures
        res == (text::starts_with(file_name@, SCRIPT_PREFIX@) && text::ends_with(file_name@, SCRIPT_SUFFIX@)),
{
    let n = chars_of(file_name);
    let p = chars_of(SCRIPT_PREFIX);
    let q = chars_of(SCRIPT_SUFFIX);
    starts_with_chars(n.as_slice(), p.as_slice()) && ends_with_chars(n.as_slice(), q.as_slice())
}

/// A file name whose extension is `exe` in any case: something before a final
/// `.exe`.
pub open spec fn has_exe_extension(name: Seq<char>) -> bool {
    name.len() > 4 && text::eq_ignore_ascii_case(name.subrange(name.len() - 4, name.len() as int), ".exe"@)
}

/// Whether a file name's extension is `exe`, ignoring ASCII case.
pub fn is_exe(file_name: &str) -> (res: bool)
    ensures
        res == has_exe_extension(file_name@),
{
    let n = chars_of(file_name);
    if n.len() <= 4 {
        return false;
    }
    let tail = text::slice_chars(n.as_slice(), n.len() - 4, n.len());
    let ext = chars_of(".exe");
    eq_ignore_case(tail.as_slice(), ext.as_slice())
}

/// `"Cheat Engine not found. Put it in resources or set MFHQ_CE_DIR"`.
pub fn not_found_message() -> (res: String)
    ensures
        res@ == "Cheat Engine not found. Put it in resources or set "@ + config::CE_DIR_ENV@,
{
    let mut s = string_of(chars_of("Cheat Engine not found. Put it in resources or set ").as_slice());
    push_str(&mut s, config::CE_DIR_ENV);
    s
}

/// What the search for Cheat Engine asks of the file system next. Candidates
/// are numbered in the order they are tried.
pub enum LocateStep {
    /// Report what candidate `i` is: a file (with or without a parent
    /// directory), a directory, or neither.
    Inspect(usize),
    /// Report whether candidate directory `i` holds `CE_EXE_NAMES[k]`.
    Probe(usize, usize),
    /// List candidate directory `i` and report the file names, or that it
    /// cannot be read.
    List(usize),
    /// Found: candidate `i` is the executable, its parent the directory.
    FoundFile(usize),
    /// Found: `CE_EXE_NAMES[k]` in candidate directory `i`.
    FoundNamed(usize, usize),
    /// Found: entry `j` of candidate directory `i`'s listing.
    FoundListed(usize, usize),
    /// No candidate holds Cheat Engine.
    NotFound,
}

/// What the file system reports.
pub enum LocateEvent {
    /// The candidate is a file; whether its path has a parent.
    File(bool),
    /// The candidate is a directory.
    Directory,
    /// The candidate is neither.
    Missing,
    /// Whether the probed executable exists.
    Exists(bool),
    /// The directory's file names, or `None` where it cannot be read.
    Listing(Option<Vec<String>>),
}

/// Searching the candidates in order for Cheat Engine's executable.
pub struct Locate {
    count: usize,
    current: usize,
    probe: usize,
}

/// The step after candidate `i` yields nothing: the next one, or the end.
pub open spec fn next_candidate(i: nat, count: nat) -> LocateStep {
    if i + 1 < count {
        LocateStep::Inspect((i + 1) as usize)
    } else {
        LocateStep::NotFound
    }
}

/// The names of the listing, as `&str` values.
pub open spec fn listing_names(names: Seq<String>) -> Seq<Seq<char>> {
    names.map_values(|n: String| n@)
}

/// The positions of the entries whose extension is `exe`, in order.
pub open spec fn exe_positions_of(names: Seq<Seq<char>>) -> Seq<usize>
    decreases names.len(),
{
    if names.len() == 0 {
        Seq::empty()
    } else {
        let rest = exe_positions_of(names.drop_last());
        if has_exe_extension(names.last()) {
            rest.push((names.len() - 1) as usize)
        } else {
            rest
        }
    }
}

impl Locate {
    /// Number of candidates.
    pub closed spec fn spec_count(&self) -> nat {
        self.count as nat
    }

    /// The candidate being examined.
    pub closed spec fn spec_current(&self) -> nat {
        self.current as nat
    }

    /// The executable name whose probe is reported next.
    pub closed spec fn spec_probe(&self) -> nat {
        self.probe as nat
    }

    pub closed spec fn wf(&self) -> bool {
        self.current < self.count && self.probe < 3
    }

    /// Answers one report of the file system.
    pub fn step(&mut self, event: LocateEvent) -> (res: LocateStep)
        requires
            old(self).wf(),
        ensures
            final(self).spec_count() == old(self).spec_count(),
            res is Inspect || res is Probe || res is List ==> final(self).wf(),
            res matches LocateStep::Inspect(j) ==> final(self).spec_current() == j && final(self).spec_probe() == 0,
            res matches LocateStep::Probe(i, k) ==> final(self).spec_current() == i && final(self).spec_probe() == k,
            res matches LocateStep::List(i) ==> final(self).spec_current() == i,
            ({
                let i = old(self).spec_current();
                let n = old(self).spec_count();
                match event {
                    LocateEvent::File(has_parent) => res == if has_parent { LocateStep::FoundFile(i as usize) } else { next_candidate(i, n) },
                    LocateEvent::Directory => res == LocateStep::Probe(i as usize, 0),
                    LocateEvent::Missing => res == next_candidate(i, n),
                    LocateEvent::Exists(found) => res == if found {
                        LocateStep::FoundNamed(i as usize, old(self).spec_probe() as usize)
                    } else if old(self).spec_probe() + 1 < 3 {
                        LocateStep::Probe(i as usize, (old(self).spec_probe() + 1) as usize)
                    } else {
                        LocateStep::List(i as usize)
                    },
                    LocateEvent::Listing(None) => res == next_candidate(i, n),
                    LocateEvent::Listing(Some(names)) => {
                        let exes = exe_positions_of(listing_names(names@));
                        res == if exes.len() == 1 { LocateStep::FoundListed(i as usize, exes[0]) } else { next_candidate(i, n) }
                    },
                }
            }),
    {
        match event {
            LocateEvent::File(has_parent) => {
                if has_parent {
                    LocateStep::FoundFile(self.current)
                } else {
                    self.advance()
                }
            },
            LocateEvent::Directory => {
                self.probe = 0;
                LocateStep::Probe(self.current, 0)
            },
            LocateEvent::Missing => self.advance(),
            LocateEvent::Exists(found) => {
                if found {
                    LocateStep::FoundNamed(self.current, self.probe)
                } else if self.probe + 1 < 3 {
                    self.probe = self.probe + 1;
                    LocateStep::Probe(self.current, self.probe)
                } else {
                    LocateStep::List(self.current)
                }
            },
            LocateEvent::Listing(None) => self.advance(),
            LocateEvent::Listing(Some(names)) => {
                match sole_exe_of(&names) {
                    Some(j) => LocateStep::FoundListed(self.current, j),
                    None => self.advance(),
                }
            },
        }
    }

    fn advance(&mut self) -> (res: LocateStep)
        requires
            old(self).wf(),
        ensures
            res == next_candidate(old(self).spec_current(), old(self).spec_count()),
            final(self).spec_count() == old(self).spec_count(),
            res is Inspect ==> final(self).wf() && final(self).spec_current() == old(self).spec_current() + 1 && final(self).spec_probe() == 0,
    {
        if self.current + 1 < self.count {
            self.current = self.current + 1;
            self.probe = 0;
            LocateStep::Inspect(self.current)
        } else {
            LocateStep::NotFound
        }
    }
}

/// The listing's only executable, if it has exactly one.
fn sole_exe_of(names: &Vec<String>) -> (res: Option<usize>)
    ensures
        res is Some <==> exe_positions_of(listing_names(names@)).len() == 1,
        res matches Some(i) ==> i == exe_positions_of(listing_names(names@))[0],
{
    let ghost ns = listing_names(names@);
    let mut found: Vec<usize> = Vec::new();
    let mut i: usize = 0;
    while i < names.len()
        invariant
            i <= names@.len(),
            ns == listing_names(names@),
            found@ == exe_positions_of(ns.take(i as int)),
        decreases names.len() - i,
    {
        assert(ns.take(i + 1).drop_last() =~= ns.take(i as int));
        assert(ns.take(i + 1).last() == names@[i as int]@);
        if is_exe(names[i].as_str()) {
            found.push(i);
        }
        i += 1;
    }
    assert(ns.take(names@.len() as int) =~= ns);
    if found.len() == 1 {
        Some(found[0])
    } else {
        None
    }
}

/// Starts the search over `count` candidates (the directory named by the
/// environment, where set, then the bundled directory, then the default one):
/// the search and its first step.
pub fn locate(count: usize) -> (res: (Locate, LocateStep))
    ensures
        res.0.spec_count() == count,
        count > 0 ==> res.0.wf() && res.0.spec_current() == 0 && res.0.spec_probe() == 0 && res.1 == LocateStep::Inspect(0),
        count == 0 ==> res.1 == LocateStep::NotFound,
{
    let l = Locate { count, current: 0, probe: 0 };
    if count > 0 {
        (l, LocateStep::Inspect(0))
    } else {
        (l, LocateStep::NotFound)
    }
}

} // verus!
