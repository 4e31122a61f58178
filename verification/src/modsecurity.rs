use vstd::prelude::*;

pub mod engine;
pub mod enums;
