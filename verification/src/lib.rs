//! Risk-gated desktop automation core: region change detection by sampled
//! hashing, a variable-interpolation context, an action execution model, and
//! a resilient LLM decision client, with the perception-decision-action loop
//! tying them together.

pub mod action;
pub mod audio;
pub mod context;
pub mod domain;
pub mod hashing;
pub mod imaging;
pub mod jsonwrap;
pub mod llm;
pub mod mocks;
pub mod monitor;
pub mod ports;
pub mod run;
pub mod textutil;

use vstd::prelude::*;

verus! {

} // verus!
