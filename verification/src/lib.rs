//! The core of a launcher for a game that ships one executable per renderer.
//!
//! The launcher keeps a small settings record in a TOML file, picks the
//! executable that matches the chosen renderer and derives the command-line
//! flags the game is started with. Everything here works on plain values:
//! reading and writing the file and starting the process are left to the
//! program built on top of this library.

pub mod app_config;
pub mod game;
pub mod toml_table;
