//! The unit message that travels from the watch callback to the consumer, and
//! the queue that carries it.
//!
//! The queue is shared with the callback's thread, which may send at any
//! time. What a receive finds therefore cannot be told from anything the
//! consumer holds, and the queue's functions are called as they are, with
//! nothing claimed of their results.

use vstd::prelude::*;
use std::fmt::Debug;
use message_channel::{Channel, ChannelError, Receiver, Sender};

verus! {

/// "Something changed." The message deliberately carries no path: consumers
/// only need to know that a change happened, not where.
#[derive(Debug)]
pub enum ChangeMessage {
    SomeKindOfChange,
}

/// `message_channel::Channel`, opaque: the queue itself.
#[verifier::external_type_specification]
#[verifier::external_body]
#[verifier::reject_recursive_types(T)]
pub struct ExChannel<T: Debug + Send + Sync>(Channel<T>);

/// `message_channel::Sender`, opaque: the end that the watch callback owns.
#[verifier::external_type_specification]
#[verifier::external_body]
#[verifier::reject_recursive_types(T)]
pub struct ExSender<T: Debug + Send + Sync>(Sender<T>);

/// `message_channel::Receiver`, opaque: the end that the consumer owns.
#[verifier::external_type_specification]
#[verifier::external_body]
#[verifier::reject_recursive_types(T)]
pub struct ExReceiver<T: Debug + Send + Sync>(Receiver<T>);

/// `message_channel::ChannelError`, opaque: why a send or a receive failed.
#[verifier::external_type_specification]
#[verifier::external_body]
pub struct ExChannelError(ChannelError);

/// `Channel::create` builds an empty queue and hands out its two ends.
pub assume_specification<T: Debug + Send + Sync>[ Channel::<T>::create ]() -> (ends: (
    Sender<T>,
    Receiver<T>,
))
;

/// `Sender::send` appends the message to the queue. It fails only when the
/// queue's lock is poisoned.
pub assume_specification<T: Debug + Send + Sync>[ Sender::<T>::send ](
    sender: &Sender<T>,
    message: T,
) -> (sent: Result<(), ChannelError>)
;

/// `Receiver::recv` takes the oldest queued message without waiting. It fails
/// when the queue is empty or its lock is poisoned.
pub assume_specification<T: Debug + Send + Sync>[ Receiver::<T>::recv ](
    receiver: &Receiver<T>,
) -> (received: Result<T, ChannelError>)
;

} // verus!
