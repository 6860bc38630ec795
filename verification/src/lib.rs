use vstd::prelude::*;

pub mod text;
pub mod strmap;
pub mod strlist;
pub mod unicode;
pub mod paths;
pub mod lines;
pub mod online;
pub mod scanner;
pub mod i18n;
pub mod config;
pub mod playlist;
pub mod cli;
pub mod console;
pub mod engine;
pub mod system;
pub mod tray;
pub mod theme;
pub mod state;

verus! {
} // verus!
