//! Schedules, names and paths that the bot works with.

use vstd::prelude::*;

verus! {

/// Weekdays on which the scheduled script runs (0 is Sunday, 5 Friday, 6 Saturday).
pub const ACTIVE_WEEKDAYS: [u16; 3] = [5, 6, 0];

/// First hour of the day in which the scheduled script runs.
pub const START_HOUR: u16 = 10;

/// The hour at which the scheduled script stops.
pub const STOP_HOUR: u16 = 22;

/// Seconds between two schedule checks.
pub const CHECK_INTERVAL_SECONDS: u64 = 30;

pub const APP_EXE_NAME: &'static str = "mfhq.exe";
pub const APP_EXE_ENV: &'static str = "MFHQ_APP_EXE";
pub const SCHEDULED_SCRIPT: &'static str = "yingxionggu";
pub const SCRIPT_PID_FILE: &'static str = "yingxionggu.pid";

/// Executable names of the game client.
pub const GAME_PROCESS_NAMES: [&'static str; 2] = ["paraengineclient.exe", "00000BAC-paraengineclient.exe"];
pub const GAME_DEFAULT_PATH: &'static str = "C:\\魔法哈奇\\魔法哈奇.exe";
pub const GAME_PATH_ENV: &'static str = "MFHQ_GAME_PATH";

/// Words of which one appears in the title of the game's window.
pub const GAME_WINDOW_KEYS: [&'static str; 3] = ["魔法哈奇", "哈奇", "paraengine"];

pub const CE_DIR: &'static str = "C:\\Users\\Cheat Engine 6.5 (1)\\Cheat Engine 6.5";
pub const CE_DIR_ENV: &'static str = "MFHQ_CE_DIR";
pub const CE_BUNDLED_DIR: &'static str = "resources/Cheat Engine 6.5";
pub const CE_PID_FILE: &'static str = "cheat_engine.pid";

} // verus!
