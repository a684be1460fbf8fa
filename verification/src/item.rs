//! The history entry the renderer reads: plain values only.

use vstd::prelude::*;

verus! {

/// One history entry. The command runs through normalization before match
/// lookups; the compound host identifier is `host:user`, or the host alone.
pub struct HistoryItem {
    /// The command text as entered.
    pub command: String,
    /// How long the command ran, in nanoseconds; negative when unknown.
    pub duration: i64,
    /// The command's exit status.
    pub exit: i64,
    /// When the command ran: nanoseconds since the Unix epoch, UTC.
    pub timestamp: i128,
    /// The working directory the command ran in.
    pub cwd: String,
    /// The compound `host:user` identifier.
    pub hostname: String,
}

/// A run counts as successful exactly when it exited with status zero.
pub open spec fn success_spec(h: HistoryItem) -> bool {
    h.exit == 0
}

impl HistoryItem {
    /// Whether the run succeeded.
    pub fn success(&self) -> (r: bool)
        ensures
            r == success_spec(*self),
    {
        self.exit == 0
    }
}

} // verus!
