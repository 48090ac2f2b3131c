//! Library core of a game launcher for emulated games: the emulator,
//! platform and collection models, how an emulator is chosen and how its
//! command line is built, and the tables the launcher works from.

pub mod commands;
pub mod config;
pub mod database;
pub mod cores;
pub mod detection;
pub mod github;
pub mod launcher;
pub mod laws;
pub mod models;
pub mod paths;
pub mod sync;
pub mod text;
pub mod ui;
