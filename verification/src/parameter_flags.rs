//! VST3 `ParameterInfo` flag bits (`ParameterFlags` in the SDK).

use vstd::prelude::*;

verus! {

/// Parameter can be automated by the host.
pub const CAN_AUTOMATE: i32 = 1;

/// Parameter is read-only (display-only, cannot be edited).
pub const IS_READ_ONLY: i32 = 2;

/// Parameter wraps around at its extremes (e.g. phase).
pub const IS_WRAP: i32 = 4;

/// Parameter is a discrete list (maps to `stepCount` entries).
pub const IS_LIST: i32 = 8;

/// Parameter should be hidden from host UI.
pub const IS_HIDDEN: i32 = 16;

/// Parameter controls a program change.
pub const IS_PROGRAM_CHANGE: i32 = 32768;

/// Parameter is the plugin's bypass switch.
pub const IS_BYPASS: i32 = 65536;

} // verus!
