//! Keeps a rich-presence status in step with a configuration file and with the
//! programs that are running.
use vstd::prelude::*;

pub mod config;
pub mod template;
pub mod discord;

verus! {

} // verus!
