//! Core engine of a turn-based colony management game.
//!
//! Players accumulate Energy, Minerals and Gas through producer buildings,
//! store them in capacity-limited storage buildings, and spend them to
//! upgrade buildings level by level, advancing through discrete turns.
//! This crate holds the verified engine: the building upgrade state
//! machine, per-planet production and storage accounting, and the
//! command dispatch pipeline. Terminal rendering and configuration-file
//! parsing live outside the engine and hand it plain values.

pub mod basic_building;
pub mod building;
pub mod command;
pub mod config;
pub mod game;
pub mod game_core;
pub mod log;
pub mod planet;
pub mod player;
pub mod resource;
pub mod text;
pub mod turn;
