//! Field names used in wire documents.
use vstd::prelude::*;

verus! {

pub const TYPE: &'static str = "type";

pub const REQUEST_ID: &'static str = "requestId";

pub const MODULE_ID: &'static str = "moduleId";

pub const VERSION: &'static str = "version";

pub const DEPENDENCIES: &'static str = "dependencies";

pub const ERROR: &'static str = "error";

pub const FUNCTION: &'static str = "function";

pub const HOOK: &'static str = "hook";

pub const ARGUMENTS: &'static str = "arguments";

pub const DATA: &'static str = "data";

} // verus!
