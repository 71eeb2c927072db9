//! Decision and text logic of a desktop game-automation bot: the exact
//! integer side of template matching, images, pid-file records, process and
//! window selection, Cheat Engine's search and script, log lines, the command
//! line, and the task loops as state machines that hand the platform layer
//! the actions to perform.

pub mod assets;
pub mod bot;
pub mod ce;
pub mod cli;
pub mod config;
pub mod console;
pub mod input;
pub mod log;
pub mod pidfile;
pub mod process;
pub mod raster;
pub mod tasks;
pub mod text;
pub mod vision;
pub mod window;
