//! A minimal desktop application shell, modelled as a verified library.
//!
//! The shell assembles a host: it attaches a fixed, ordered list of
//! capability modules, registers a command table holding the single
//! remote-callable command `ping`, and then hands control to a run loop
//! owned by the surrounding program.  Everything the shell itself decides
//! — which capabilities are attached and in which order, what the command
//! table holds, what each command returns, and how the host moves through
//! its lifecycle — lives here with a contract.

pub mod capability;
pub mod commands;
pub mod host;
