//! The remote-controlled character grid: a cursor interpreter driven by a
//! small command language, the keyboard snapshot served to remote peers, and
//! the request handling of the control protocol.

pub mod tile;
pub mod command;
pub mod game;
pub mod keyboard;
pub mod config;
pub mod screenshot;
pub mod app;
pub mod server;
pub mod spritesheet;
