use vstd::prelude::*;

verus! {

/// How a rescue-protocol operation can fail.
///
/// Every failure is surfaced immediately to the caller; this layer never
/// retries. After any failure the device's protocol state is unspecified and
/// a session must be re-entered before it is used again.
#[derive(Debug)]
pub enum RescueError {
    /// The device answered a mode or baud command with `error:`, or the host
    /// asked for a baud rate outside the supported set. Carries the device's
    /// diagnostic text, or a host-generated message.
    BadMode(String),
    /// A pattern wait reached its deadline without a match.
    Timeout,
    /// The underlying transport read failed.
    Io,
}

} // verus!
