//! Log levels of the host.
//!
//! The host's log call takes the level as a lower-case string; the mapping
//! from level to string stands here, the call itself is the caller's.

use vstd::prelude::*;

verus! {

/// A level of logging the host understands.
#[derive(Clone, Copy, Debug, PartialEq, Eq, Structural)]
pub enum ValkeyLogLevel {
    Debug,
    Notice,
    Verbose,
    Warning,
}

impl ValkeyLogLevel {
    /// The level's name as the host's log call takes it.
    pub fn as_str(&self) -> (r: &'static str)
        ensures
            *self == ValkeyLogLevel::Debug ==> r@ == "debug"@,
            *self == ValkeyLogLevel::Notice ==> r@ == "notice"@,
            *self == ValkeyLogLevel::Verbose ==> r@ == "verbose"@,
            *self == ValkeyLogLevel::Warning ==> r@ == "warning"@,
    {
        match self {
            ValkeyLogLevel::Debug => "debug",
            ValkeyLogLevel::Notice => "notice",
            ValkeyLogLevel::Verbose => "verbose",
            ValkeyLogLevel::Warning => "warning",
        }
    }
}

} // verus!
