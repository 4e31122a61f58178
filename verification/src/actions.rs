use vstd::prelude::*;

pub mod action;
pub mod audit_log;
