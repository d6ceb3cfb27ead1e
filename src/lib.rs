//! Client-side subscription handles of a publish/subscribe messaging client.
//!
//! The handle state, the drain handshake, the cleanup on discard and the
//! rules that turn a wait into a result are verified here. Running the
//! awaits (flushing the connection, sending an unsubscribe frame, racing a
//! wait against a timer) is left to the caller, which feeds each outcome back.
pub mod cleanup;
pub mod decimal;
pub mod error;
pub mod lemmas;
pub mod message;
pub mod subscription;

pub use cleanup::PendingUnsubscribes;
pub use error::ErrorKind;
pub use message::Message;
pub use subscription::{
    AsyncSubscription, DrainAction, DrainEvent, DrainPhase, SubState, Subscription, WaitOutcome,
};
