//! The schedule controller: keeps the yingxionggu script running inside its
//! weekly window and stopped (with Cheat Engine closed) outside it.

use vstd::prelude::*;
use crate::config;
use crate::pidfile;
use crate::process::{self, ProcessEntry};
use crate::tasks::owned;
use crate::text;
use crate::text::{decimal_of, push_all, push_str};

verus! {

/// The script's weekly window: on an active weekday, from the start hour up
/// to (not including) the stop hour.
pub open spec fn active_time(weekday: u16, hour: u16) -> bool {
    &&& (weekday == 5 || weekday == 6 || weekday == 0)
    &&& config::START_HOUR <= hour < config::STOP_HOUR
}

/// Whether the local time (day of the week, 0 being Sunday, and hour) falls
/// in the script's weekly window.
pub fn is_active_time(weekday: u16, hour: u16) -> (res: bool)
    ensures
        res == active_time(weekday, hour),
        res == (config::ACTIVE_WEEKDAYS@.contains(weekday) && config::START_HOUR <= hour && hour < config::STOP_HOUR),
{
    let days = config::ACTIVE_WEEKDAYS;
    let mut listed = false;
    let mut i: usize = 0;
    while i < 3
        invariant
            i <= 3,
            days@ == seq![5u16, 6u16, 0u16],
            listed == exists|k: int| 0 <= k < i && days@[k] == weekday,
        decreases 3 - i,
    {
        if days[i] == weekday {
            listed = true;
        }
        i += 1;
    }
    assert(listed == (weekday == 5 || weekday == 6 || weekday == 0)) by {
        if weekday == 5 {
            assert(days@[0] == weekday);
        } else if weekday == 6 {
            assert(days@[1] == weekday);
        } else if weekday == 0 {
            assert(days@[2] == weekday);
        }
    }
    proof {
        lemma_active_time(weekday, hour);
    }
    listed && hour >= config::START_HOUR && hour < config::STOP_HOUR
}

/// The weekly window is exactly the configured weekdays, from the start hour
/// up to (not including) the stop hour.
pub proof fn lemma_active_time(weekday: u16, hour: u16)
    ensures
        active_time(weekday, hour) == (config::ACTIVE_WEEKDAYS@.contains(weekday) && config::START_HOUR <= hour
            && hour < config::STOP_HOUR),
{
    let days = config::ACTIVE_WEEKDAYS@;
    assert(days =~= seq![5u16, 6u16, 0u16]);
    if days.contains(weekday) {
        let k = choose|k: int| 0 <= k < days.len() && days[k] == weekday;
        assert(k == 0 || k == 1 || k == 2);
    }
    if weekday == 5 {
        assert(days[0] == weekday);
    } else if weekday == 6 {
        assert(days[1] == weekday);
    } else if weekday == 0 {
        assert(days[2] == weekday);
    }
}

/// A schedule check launches the script only inside the weekly window, and
/// outside it always closes Cheat Engine: what a check does follows the
/// configured weekdays and hours.
pub proof fn lemma_tick_follows_window(weekday: u16, hour: u16, recorded_pid: u32, alive: bool)
    ensures
        !(config::ACTIVE_WEEKDAYS@.contains(weekday) && config::START_HOUR <= hour && hour < config::STOP_HOUR)
            ==> !(if active_time(weekday, hour) { start_plan(recorded_pid, alive) } else { stop_plan(alive) }).contains(ControllerAction::LaunchScript)
            && (if active_time(weekday, hour) { start_plan(recorded_pid, alive) } else { stop_plan(alive) }).contains(ControllerAction::CloseCheatEngine),
        (config::ACTIVE_WEEKDAYS@.contains(weekday) && config::START_HOUR <= hour && hour < config::STOP_HOUR) && !alive
            ==> (if active_time(weekday, hour) { start_plan(recorded_pid, alive) } else { stop_plan(alive) }).contains(ControllerAction::LaunchScript),
{
    lemma_active_time(weekday, hour);
    lemma_schedule(recorded_pid, alive);
}

/// One thing the controller asks of the platform layer.
#[derive(Clone, Copy, Debug, PartialEq, Eq, Structural)]
pub enum ControllerAction {
    /// Terminate Cheat Engine where its pid file still matches it.
    CloseCheatEngine,
    /// Delete the script's pid file.
    ClearScriptPid,
    /// Terminate the script where its pid file still matches it.
    StopOwnedScript,
    /// Launch the script and record it in its pid file.
    LaunchScript,
}

/// What `start_script` does: nothing while the recorded script lives;
/// otherwise close Cheat Engine (where a pid was recorded), clear the record
/// and launch the script.
pub open spec fn start_plan(recorded_pid: u32, alive: bool) -> Seq<ControllerAction> {
    if alive {
        Seq::empty()
    } else if recorded_pid != 0 {
        seq![ControllerAction::CloseCheatEngine, ControllerAction::ClearScriptPid, ControllerAction::LaunchScript]
    } else {
        seq![ControllerAction::ClearScriptPid, ControllerAction::LaunchScript]
    }
}

/// What `stop_script` does: where the recorded script is gone, close Cheat
/// Engine and clear the record; otherwise terminate the script (where its
/// record still matches) and close Cheat Engine.
pub open spec fn stop_plan(alive: bool) -> Seq<ControllerAction> {
    if !alive {
        seq![ControllerAction::CloseCheatEngine, ControllerAction::ClearScriptPid]
    } else {
        seq![ControllerAction::StopOwnedScript, ControllerAction::CloseCheatEngine]
    }
}

/// Inside the window: keeps the script running.
pub fn start_script(recorded_pid: u32, alive: bool) -> (res: Vec<ControllerAction>)
    ensures
        res@ == start_plan(recorded_pid, alive),
{
    let mut v: Vec<ControllerAction> = Vec::new();
    if alive {
        return v;
    }
    if recorded_pid != 0 {
        v.push(ControllerAction::CloseCheatEngine);
    }
    v.push(ControllerAction::ClearScriptPid);
    v.push(ControllerAction::LaunchScript);
    assert(v@ =~= start_plan(recorded_pid, alive));
    v
}

/// Outside the window: keeps the script and Cheat Engine stopped.
pub fn stop_script(alive: bool) -> (res: Vec<ControllerAction>)
    ensures
        res@ == stop_plan(alive),
{
    let mut v: Vec<ControllerAction> = Vec::new();
    if !alive {
        v.push(ControllerAction::CloseCheatEngine);
        v.push(ControllerAction::ClearScriptPid);
    } else {
        v.push(ControllerAction::StopOwnedScript);
        v.push(ControllerAction::CloseCheatEngine);
    }
    assert(v@ =~= stop_plan(alive));
    v
}

/// One check of the schedule, given the local time, the text of the script's
/// pid file (empty where it cannot be read) and a process snapshot.
pub fn tick(weekday: u16, hour: u16, pid_text: &str, procs: &[ProcessEntry]) -> (res: Vec<ControllerAction>)
    ensures
        ({
            let pid = pidfile::recorded_pid(pid_text@);
            let alive = pid != 0 && exists|j: int| 0 <= j < procs@.len() && (#[trigger] procs@[j]).pid == pid;
            res@ == if active_time(weekday, hour) { start_plan(pid, alive) } else { stop_plan(alive) }
        }),
{
    let (pid, _) = pidfile::read(pid_text);
    let alive = process::pid_alive(pid, procs);
    if is_active_time(weekday, hour) {
        start_script(pid, alive)
    } else {
        stop_script(alive)
    }
}

/// Outside the window every check closes Cheat Engine and launches nothing;
/// inside it, a check launches the script exactly when the recorded one is
/// not alive, and closes Cheat Engine only before such a launch, when a pid
/// had been recorded.
pub proof fn lemma_schedule(recorded_pid: u32, alive: bool)
    ensures
        stop_plan(alive).contains(ControllerAction::CloseCheatEngine),
        !stop_plan(alive).contains(ControllerAction::LaunchScript),
        start_plan(recorded_pid, alive).contains(ControllerAction::LaunchScript) <==> !alive,
        start_plan(recorded_pid, alive).contains(ControllerAction::CloseCheatEngine) <==> (!alive && recorded_pid != 0),
{
    if !alive {
        assert(stop_plan(alive)[0] == ControllerAction::CloseCheatEngine);
        if recorded_pid != 0 {
            assert(start_plan(recorded_pid, alive)[2] == ControllerAction::LaunchScript);
            assert(start_plan(recorded_pid, alive)[0] == ControllerAction::CloseCheatEngine);
        } else {
            assert(start_plan(recorded_pid, alive)[1] == ControllerAction::LaunchScript);
        }
    } else {
        assert(stop_plan(alive)[1] == ControllerAction::CloseCheatEngine);
    }
}

/// `"started: <exe> yingxionggu pid=<pid>"`.
pub open spec fn started_line(exe: Seq<char>, pid: u32) -> Seq<char> {
    "started: "@ + exe + " "@ + config::SCHEDULED_SCRIPT@ + " pid="@ + text::decimal(pid as nat)
}

/// The log line written after the script was launched from `exe` as `pid`.
pub fn started_message(exe: &str, pid: u32) -> (res: String)
    ensures
        res@ == started_line(exe@, pid),
{
    let mut s = owned("started: ");
    push_str(&mut s, exe);
    push_str(&mut s, " ");
    push_str(&mut s, config::SCHEDULED_SCRIPT);
    push_str(&mut s, " pid=");
    let d = decimal_of(pid as u64);
    push_all(&mut s, d.as_slice());
    s
}

/// `"app exe not found: <exe>"`.
pub fn missing_exe_message(exe: &str) -> (res: String)
    ensures
        res@ == "app exe not found: "@ + exe@,
{
    let mut s = owned("app exe not found: ");
    push_str(&mut s, exe);
    s
}

/// The line the controller logs when it starts.
pub fn run() -> (res: String)
    ensures
        res@ == "controller started"@,
{
    owned("controller started")
}

} // verus!
