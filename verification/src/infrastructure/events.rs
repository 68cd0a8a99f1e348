//! Names of the events that the shell emits to the frontend.

use vstd::prelude::*;

verus! {

/// Event: a clip was captured or updated.
pub const CLIP_BOARD_CHANGED: &'static str = "clipboard-changed";

/// Event: sensitive content was detected and not saved automatically.
pub const SECRET_DETECTED: &'static str = "secret-detected";

} // verus!
