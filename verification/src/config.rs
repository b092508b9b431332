//! Default server configuration.

use vstd::prelude::*;

verus! {

/// Default server port
pub const DEFAULT_PORT: u16 = 3030;

/// Default server address
pub const DEFAULT_HOST: &'static str = "127.0.0.1";

/// Number of ticks per second
pub const TICKS_PER_SECOND: u32 = 60;

/// Maximum timeout for script execution (ms)
pub const SCRIPT_TIMEOUT_MS: u64 = 100;

/// Maximum memory for a script (MB)
pub const SCRIPT_MAX_MEMORY_MB: usize = 128;

} // verus!
