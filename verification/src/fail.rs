//! The failures that a connection reports to its owner.

use vstd::prelude::*;

verus! {

/// Why a connection attempt or an established connection ended.
#[derive(Clone, Copy, Debug, PartialEq, Eq, Structural)]
pub enum Fail {
    /// The peer answered the handshake with a reset.
    ConnectionRefused,
    /// Every handshake attempt went unanswered.
    Timeout,
    /// Both directions of the connection have been closed.
    ConnectionAborted,
    /// The link address of the peer could not be resolved.
    ResolutionFailed,
    /// The peer advertised a window that, once scaled, does not fit in 32 bits.
    WindowOverflow,
}

} // verus!
