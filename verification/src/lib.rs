//! Mimic: the controller logic of a ComputerCraft emulator.
//!
//! Each emulated computer is driven by a [`minion::Minion`], which decides
//! what to draw and what to tell the emulated machine; an
//! [`emulator::Emulator`] owns the fleet of them.  Nothing here touches a
//! window or a machine: the functions take what was read from them as plain
//! values and say what to do next, and each is verified against its
//! contract.  The exceptions are a handful of calls into `rustc_serialize`
//! and `core::str`, in [`json`] and [`text`], whose contracts are taken on
//! trust.

pub mod backend;
pub mod color;
pub mod convert;
pub mod failure;
pub mod grid;
pub mod input;
pub mod text;
pub mod minion;
pub mod json;
pub mod config;
pub mod emulator;
pub mod error;
pub mod storage;
