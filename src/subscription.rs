use vstd::prelude::*;

use crate::decimal::{decimal, push_decimal};
use crate::error::ErrorKind;
use crate::message::Message;

verus! {

#[verifier::external_type_specification]
#[verifier::external_body]
#[verifier::reject_recursive_types(T)]
pub struct ExReceiver<T>(async_channel::Receiver<T>);

/// Relies on async_channel::Receiver::try_recv: takes a buffered message
/// without waiting, or reports that none is there. What the channel holds
/// is written by its senders, so nothing is promised of the outcome.
#[verifier::external_body]
fn receive_now(messages: &async_channel::Receiver<Message>) -> (r: Option<Message>) {
    messages.try_recv().ok()
}

/// Where a drain handshake stands.
#[derive(PartialEq, Eq, Structural, Clone, Copy, Debug)]
pub enum DrainPhase {
    /// No drain is in progress.
    Idle,
    /// Waiting for the connection to be flushed.
    Flushing,
    /// Waiting for the unsubscribe frame to be sent.
    Unsubscribing,
}

/// What the caller reports to a drain in progress.
#[derive(PartialEq, Eq, Clone, Copy, Debug)]
pub enum DrainEvent {
    /// The caller asks for a drain.
    Start,
    /// The flush requested by `DrainAction::Flush` completed.
    Flushed(Result<(), ErrorKind>),
    /// The send requested by `DrainAction::Unsubscribe` completed.
    Unsubscribed(Result<(), ErrorKind>),
}

/// What a drain asks of the caller next.
#[derive(PartialEq, Eq, Clone, Copy, Debug)]
pub enum DrainAction {
    /// Flush the connection, then report `DrainEvent::Flushed`.
    Flush,
    /// Send an unsubscribe frame for this sid, then report `DrainEvent::Unsubscribed`.
    Unsubscribe(u64),
    /// The drain is over, with this result.
    Finished(Result<(), ErrorKind>),
    /// The event does not belong to the current phase and was not acted on.
    Ignored,
}

/// How a wait for the next message ended.
pub enum WaitOutcome {
    /// A message arrived.
    Delivered(Message),
    /// The message sequence ended.
    Closed,
    /// The timer expired first.
    TimerFired,
}

/// The abstract state of a subscription handle.
pub struct SubState {
    pub sid: u64,
    pub subject: Seq<char>,
    pub active: bool,
    pub phase: DrainPhase,
    /// How many times the unsubscription of this sid was completed by a drain
    /// or handed over for cleanup on discard.
    pub unsubscribed: nat,
}

impl SubState {
    /// The handle is active exactly while its unsubscription has not been
    /// completed nor handed over, which happens at most once; a drain is in
    /// progress only on an active handle.
    pub open spec fn wf(self) -> bool {
        &&& self.unsubscribed <= 1
        &&& (self.active <==> self.unsubscribed == 0)
        &&& (self.phase != DrainPhase::Idle ==> self.active)
    }
}

/// One step of the drain handshake: the state after `e`, and what the caller must do next.
pub open spec fn drain_step(s: SubState, e: DrainEvent) -> (SubState, DrainAction) {
    match e {
        DrainEvent::Start => {
            if s.phase != DrainPhase::Idle {
                (s, DrainAction::Ignored)
            } else if !s.active {
                (s, DrainAction::Finished(Ok(())))
            } else {
                (SubState { phase: DrainPhase::Flushing, ..s }, DrainAction::Flush)
            }
        },
        DrainEvent::Flushed(res) => {
            if s.phase != DrainPhase::Flushing {
                (s, DrainAction::Ignored)
            } else {
                match res {
                    Ok(()) => (
                        SubState { phase: DrainPhase::Unsubscribing, ..s },
                        DrainAction::Unsubscribe(s.sid),
                    ),
                    Err(k) => (SubState { phase: DrainPhase::Idle, ..s }, DrainAction::Finished(Err(k))),
                }
            }
        },
        DrainEvent::Unsubscribed(res) => {
            if s.phase != DrainPhase::Unsubscribing {
                (s, DrainAction::Ignored)
            } else {
                match res {
                    Ok(()) => (
                        SubState {
                            phase: DrainPhase::Idle,
                            active: false,
                            unsubscribed: s.unsubscribed + 1,
                            ..s
                        },
                        DrainAction::Finished(Ok(())),
                    ),
                    Err(k) => (SubState { phase: DrainPhase::Idle, ..s }, DrainAction::Finished(Err(k))),
                }
            }
        },
    }
}

/// Discarding a handle: an active one hands its sid over for cleanup and
/// becomes inactive; an inactive one hands nothing over.
pub open spec fn discard_step(s: SubState) -> (SubState, Option<u64>) {
    if s.active {
        (
            SubState { phase: DrainPhase::Idle, active: false, unsubscribed: s.unsubscribed + 1, ..s },
            Some(s.sid),
        )
    } else {
        (SubState { phase: DrainPhase::Idle, ..s }, None)
    }
}

/// The result of a wait for the next message that has no timer.
pub open spec fn next_result(received: Option<Message>) -> Result<Message, ErrorKind> {
    match received {
        Some(m) => Ok(m),
        None => Err(ErrorKind::ConnectionReset),
    }
}

/// The result of a timed wait once the timer fired, given what a last look
/// at the queue found.
pub open spec fn timeout_result(late: Option<Message>) -> Result<Message, ErrorKind> {
    match late {
        Some(m) => Ok(m),
        None => Err(ErrorKind::TimedOut),
    }
}

/// A subscription to a subject, for callers with a cooperative scheduler.
pub struct AsyncSubscription {
    /// Subscription ID.
    sid: u64,
    /// Subject, kept for diagnostics.
    subject: String,
    /// Receiving end of the queue of messages delivered for this subscription.
    messages: async_channel::Receiver<Message>,
    /// Registration and drain state.
    life: Lifecycle,
}

/// The part of a handle that draining and discarding change.
#[derive(Clone, Copy)]
struct Lifecycle {
    /// Whether the subscription is still registered with the server.
    active: bool,
    phase: DrainPhase,
    unsubscribed: Ghost<nat>,
}

impl View for AsyncSubscription {
    type V = SubState;

    closed spec fn view(&self) -> SubState {
        SubState {
            sid: self.sid,
            subject: self.subject@,
            active: self.life.active,
            phase: self.life.phase,
            unsubscribed: self.life.unsubscribed@,
        }
    }
}

impl AsyncSubscription {
    #[verifier::type_invariant]
    spec fn well_formed(&self) -> bool {
        self@.wf()
    }

    /// The receiving end of the message queue.
    pub closed spec fn receiver(&self) -> async_channel::Receiver<Message> {
        self.messages
    }

    /// Creates an active subscription reading from `messages`.
    pub fn new(
        sid: u64,
        subject: String,
        messages: async_channel::Receiver<Message>,
    ) -> (r: AsyncSubscription)
        ensures
            r@ == (SubState {
                sid,
                subject: subject@,
                active: true,
                phase: DrainPhase::Idle,
                unsubscribed: 0,
            }),
            r@.wf(),
            r.receiver() == messages,
    {
        AsyncSubscription {
            sid,
            subject,
            messages,
            life: Lifecycle { active: true, phase: DrainPhase::Idle, unsubscribed: Ghost(0) },
        }
    }

    /// The subscription id.
    pub fn sid(&self) -> (r: u64)
        ensures
            r == self@.sid,
    {
        self.sid
    }

    /// The subject the subscription was registered against.
    pub fn subject(&self) -> (r: &String)
        ensures
            r@ == self@.subject,
    {
        &self.subject
    }

    /// The receiving end of the message queue, for awaiting the next message.
    pub fn messages(&self) -> (r: &async_channel::Receiver<Message>)
        ensures
            *r == self.receiver(),
    {
        &self.messages
    }

    /// Whether the subscription is still registered with the server.
    pub fn is_active(&self) -> (r: bool)
        ensures
            r == self@.active,
    {
        self.life.active
    }

    /// Where a drain stands.
    pub fn phase(&self) -> (r: DrainPhase)
        ensures
            r == self@.phase,
    {
        self.life.phase
    }

    /// Takes the next buffered message, if one is there, without waiting.
    /// Leaves the handle's state as it was.
    pub fn try_next(&mut self) -> (r: Option<Message>)
        ensures
            final(self)@ == old(self)@,
            final(self).receiver() == old(self).receiver(),
    {
        receive_now(&self.messages)
    }

    /// Advances the drain handshake by one event: flush, then unsubscribe,
    /// and only once both succeeded is the handle inactive. A drain of an
    /// inactive handle finishes at once with success. The message queue is
    /// left alone, so what was buffered can still be received.
    pub fn drain(&mut self, e: DrainEvent) -> (r: DrainAction)
        ensures
            (final(self)@, r) == drain_step(old(self)@, e),
            final(self)@.wf(),
            final(self).receiver() == old(self).receiver(),
    {
        proof {
            use_type_invariant(&*self);
            crate::lemmas::lemma_drain_step_wf(self@, e);
        }
        match e {
            DrainEvent::Start => {
                if self.life.phase != DrainPhase::Idle {
                    DrainAction::Ignored
                } else if !self.life.active {
                    DrainAction::Finished(Ok(()))
                } else {
                    self.life = Lifecycle { phase: DrainPhase::Flushing, ..self.life };
                    DrainAction::Flush
                }
            },
            DrainEvent::Flushed(res) => {
                if self.life.phase != DrainPhase::Flushing {
                    DrainAction::Ignored
                } else {
                    match res {
                        Ok(()) => {
                            self.life = Lifecycle { phase: DrainPhase::Unsubscribing, ..self.life };
                            DrainAction::Unsubscribe(self.sid)
                        },
                        Err(k) => {
                            self.life = Lifecycle { phase: DrainPhase::Idle, ..self.life };
                            DrainAction::Finished(Err(k))
                        },
                    }
                }
            },
            DrainEvent::Unsubscribed(res) => {
                if self.life.phase != DrainPhase::Unsubscribing {
                    DrainAction::Ignored
                } else {
                    match res {
                        Ok(()) => {
                            self.life = Lifecycle {
                                active: false,
                                phase: DrainPhase::Idle,
                                unsubscribed: Ghost(self.life.unsubscribed@ + 1),
                            };
                            DrainAction::Finished(Ok(()))
                        },
                        Err(k) => {
                            self.life = Lifecycle { phase: DrainPhase::Idle, ..self.life };
                            DrainAction::Finished(Err(k))
                        },
                    }
                }
            },
        }
    }

    /// Cleanup when the handle is discarded: returns the sid to unsubscribe
    /// on a best-effort basis if the handle was still active, and never waits.
    pub fn discard(&mut self) -> (r: Option<u64>)
        ensures
            (final(self)@, r) == discard_step(old(self)@),
            final(self)@.wf(),
            final(self).receiver() == old(self).receiver(),
    {
        proof {
            use_type_invariant(&*self);
        }
        if self.life.active {
            self.life = Lifecycle {
                active: false,
                phase: DrainPhase::Idle,
                unsubscribed: Ghost(self.life.unsubscribed@ + 1),
            };
            Some(self.sid)
        } else {
            self.life = Lifecycle { phase: DrainPhase::Idle, ..self.life };
            None
        }
    }

    /// Diagnostic text naming the subscription id.
    pub fn debug_repr(&self) -> (r: String)
        ensures
            r@ == "AsyncSubscription { sid: "@ + decimal(self@.sid as nat) + " }"@,
    {
        let mut s = String::from_str("AsyncSubscription { sid: ");
        push_decimal(&mut s, self.sid);
        s.append(" }");
        s
    }
}

/// A subscription to a subject, for callers that block a thread.
pub struct Subscription(pub AsyncSubscription);

impl Subscription {
    /// The result of waiting for the next message, given what the message
    /// sequence produced: a message, or its end.
    pub fn next(&mut self, received: Option<Message>) -> (r: Result<Message, ErrorKind>)
        ensures
            r == next_result(received),
            final(self)@ == old(self)@,
    {
        match received {
            Some(m) => Ok(m),
            None => Err(ErrorKind::ConnectionReset),
        }
    }

    /// The result of a timed wait once the timer fired, given what a last
    /// look at the queue found: a message that arrived just before expiry
    /// wins over the timeout.
    pub fn settle_timeout(late: Option<Message>) -> (r: Result<Message, ErrorKind>)
        ensures
            r == timeout_result(late),
    {
        match late {
            Some(m) => Ok(m),
            None => Err(ErrorKind::TimedOut),
        }
    }

    /// The result of waiting for the next message against a timer, given
    /// which finished first. When the timer fired, the queue is looked at
    /// once more so that a message that was already there is not lost to
    /// the timeout; otherwise the queue is not touched.
    pub fn next_timeout(&mut self, outcome: WaitOutcome) -> (r: Result<Message, ErrorKind>)
        ensures
            final(self)@ == old(self)@,
            final(self).0.receiver() == old(self).0.receiver(),
            match outcome {
                WaitOutcome::Delivered(m) => r == Ok::<Message, ErrorKind>(m),
                WaitOutcome::Closed => r == Err::<Message, ErrorKind>(ErrorKind::ConnectionReset),
                WaitOutcome::TimerFired => r is Ok || r == Err::<Message, ErrorKind>(ErrorKind::TimedOut),
            },
    {
        match outcome {
            WaitOutcome::Delivered(m) => Ok(m),
            WaitOutcome::Closed => Err(ErrorKind::ConnectionReset),
            WaitOutcome::TimerFired => {
                let late = self.0.try_next();
                Subscription::settle_timeout(late)
            },
        }
    }

    /// Advances the drain handshake of the underlying handle by one event.
    pub fn drain(&mut self, e: DrainEvent) -> (r: DrainAction)
        ensures
            (final(self)@, r) == drain_step(old(self)@, e),
            final(self).0.receiver() == old(self).0.receiver(),
    {
        self.0.drain(e)
    }

    /// Diagnostic text naming the subscription id.
    pub fn debug_repr(&self) -> (r: String)
        ensures
            r@ == "Subscription { sid: "@ + decimal(self@.sid as nat) + " }"@,
    {
        let mut s = String::from_str("Subscription { sid: ");
        push_decimal(&mut s, self.0.sid);
        s.append(" }");
        s
    }
}

impl View for Subscription {
    type V = SubState;

    open spec fn view(&self) -> SubState {
        self.0@
    }
}

} // verus!
