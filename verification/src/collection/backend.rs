use vstd::prelude::*;

pub mod durable;
pub mod memory;
