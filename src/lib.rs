//! Build and dev-server core for web applications compiled to WebAssembly:
//! HTML injection, change classification, watcher filtering, proxy rules,
//! environment layering and the reload protocol.
use vstd::prelude::*;

pub mod cli;
pub mod config;
pub mod dev_loop;
pub mod env;
pub mod html;
pub mod message;
pub mod pipeline;
pub mod proxy;
pub mod server;
pub mod text;
pub mod watch;
pub mod ws;

verus! {

} // verus!
