//! Cross-process command and telemetry mailbox for a game and its controller.
//!
//! Two processes share one fixed-layout memory region made of individually
//! atomic cells. This crate holds the protocol over that region: the cell
//! table and its byte layout, the bit patterns that carry absent values, the
//! sequence of cell operations behind each call of the controller and of the
//! game, and an in-process image of the region on which those sequences are
//! given their meaning.
//!
//! The image (`commands`, `game_structure`, `memory`) is a plain value with
//! one field per cell. The calls of the protocol are defined on it, and what
//! they guarantee is proved of it: a trigger is taken once, a continuous
//! flag follows its last write, a reset delivers the configuration that was
//! last written. `ops` names the single-cell operations, `controller`,
//! `game` and `handshake` give each call its operations, and `atomic`
//! performs them on the cells of a mapped region. `session` states what
//! the game sees in terms of what the two sides have done so far.
//! `controller_tick` and `game_tick` hold what each side decides from tick
//! to tick, `connect` what a caller does while the region is not there yet,
//! `layout` and `packing` where each cell lies.

pub mod atomic;
pub mod bits;
pub mod cells;
pub mod commands;
pub mod connect;
pub mod controller;
pub mod controller_tick;
pub mod error;
pub mod game;
pub mod game_tick;
pub mod game_structure;
pub mod handshake;
pub mod layout;
pub mod memory;
pub mod ops;
pub mod packing;
pub mod session;
pub mod timing;
