//! API module: the script registry exposed to the scripting interface.

pub mod scripting;
