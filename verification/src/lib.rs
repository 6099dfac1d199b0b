use vstd::prelude::*;

pub mod text;
pub mod cli;
pub mod extract;
pub mod settings;
pub mod network;
pub mod about;
pub mod printers;
pub mod language;
pub mod date_time;
pub mod privacy;
pub mod storage;
pub mod bluetooth;
pub mod topbar;
pub mod nav;
pub mod display;
pub mod summaries;
pub mod hyprland;
pub mod shortcuts;
pub mod page_text;
pub mod default_apps;
pub mod sound;

verus! {

} // verus!
