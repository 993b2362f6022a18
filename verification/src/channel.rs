//! The kind of build that the facts are collected for.

use vstd::prelude::*;

verus! {

/// Whether the build is one for debugging or one for release.
#[derive(Debug, Clone, Copy, PartialEq, Eq, Structural)]
pub enum BuildRustChannel {
    /// A build with debug assertions.
    Debug,
    /// A build without them.
    Release,
}

/// The literal of a debug build.
pub const DEBUG: &'static str = "debug";

/// The literal of a release build.
pub const RELEASE: &'static str = "release";

impl Default for BuildRustChannel {
    fn default() -> (r: BuildRustChannel)
        ensures
            r == BuildRustChannel::Debug,
    {
        BuildRustChannel::Debug
    }
}

impl BuildRustChannel {
    /// The literal that stands for the channel.
    pub open spec fn name(self) -> Seq<char> {
        match self {
            BuildRustChannel::Debug => DEBUG@,
            BuildRustChannel::Release => RELEASE@,
        }
    }

    /// The literal that stands for the channel.
    pub fn to_string(&self) -> (r: String)
        ensures
            r@ == self.name(),
    {
        match self {
            BuildRustChannel::Debug => String::from_str(DEBUG),
            BuildRustChannel::Release => String::from_str(RELEASE),
        }
    }
}

/// The channel of a build with or without debug assertions.
pub fn build_channel(debug_assertions: bool) -> (r: BuildRustChannel)
    ensures
        r == if debug_assertions {
            BuildRustChannel::Debug
        } else {
            BuildRustChannel::Release
        },
{
    if debug_assertions {
        BuildRustChannel::Debug
    } else {
        BuildRustChannel::Release
    }
}

} // verus!
