use vstd::prelude::*;

verus! {

/// The kinds of failure that a subscription handle reports.
#[derive(PartialEq, Eq, Structural, Clone, Copy, Debug)]
pub enum ErrorKind {
    /// The message sequence ended while a message was awaited.
    ConnectionReset,
    /// A bounded wait expired before a message arrived.
    TimedOut,
    /// Flushing the connection or sending the unsubscribe frame failed.
    ConnectionFailed,
}

} // verus!
