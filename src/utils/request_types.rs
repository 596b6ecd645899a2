//! Type tags of wire documents.
use vstd::prelude::*;

verus! {

pub const ERROR: u64 = 0;

pub const MODULE_REGISTRATION: u64 = 1;

pub const MODULE_REGISTERED: u64 = 2;

pub const FUNCTION_CALL: u64 = 3;

pub const FUNCTION_RESPONSE: u64 = 4;

pub const REGISTER_HOOK: u64 = 5;

pub const HOOK_REGISTERED: u64 = 6;

pub const TRIGGER_HOOK: u64 = 7;

pub const HOOK_TRIGGERED: u64 = 8;

pub const DECLARE_FUNCTION: u64 = 9;

pub const FUNCTION_DECLARED: u64 = 10;

} // verus!
