//! Decision logic of a single-process execution sandbox.
//!
//! The crate holds everything a launch decides: how a bind-mount token is
//! read, which mounts a configuration asks for and in which order, what the
//! child does to itself before the program starts, how the launch moves from
//! one step to the next, what is released on every way out, and how a child's
//! end becomes the record handed back to the caller. The operating-system
//! calls themselves are made by the caller, which performs each action the
//! launch asks for and reports what came of it.
//!
//! - `config`: the configuration and its invariant.
//! - `bindmount`: bind-mount pairs and their token syntax.
//! - `mount`: the plan of mounts.
//! - `env`: the environment of the program.
//! - `child`: the child's setup, in order.
//! - `channel`: the message of a child that failed its setup.
//! - `watchdog`: the time left until the wall-clock limit.
//! - `launch`: the launch itself, step by step.
//! - `output`: the record of a run.
//! - `error`: why a launch gave no record.
//! - `search`: finding a byte in a byte string.

pub mod bindmount;
pub mod channel;
pub mod child;
pub mod config;
pub mod env;
pub mod error;
pub mod launch;
pub mod mount;
pub mod output;
pub mod search;
pub mod watchdog;

pub use bindmount::BindMount;
pub use config::SandboxConfig;
pub use output::SandboxOutput;
