use vstd::prelude::*;

pub mod actions;
pub mod collection;
pub mod modsecurity;
pub mod rules;
pub mod text;
pub mod transaction;
pub mod variables;
