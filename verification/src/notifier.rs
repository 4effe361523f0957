//! The change notifier: what the game assumes of tokio's broadcast channel.
//!
//! The channel carries signals without a payload. A subscriber that lags
//! loses the oldest signals; the sender never waits for one.

use vstd::prelude::*;
use tokio::sync::broadcast::error::SendError;
use tokio::sync::broadcast::{Receiver, Sender};

verus! {

/// `tokio::sync::broadcast::Sender`, the sending half of a broadcast channel.
/// Verus sees nothing inside it.
#[verifier::external_type_specification]
#[verifier::external_body]
#[verifier::reject_recursive_types(T)]
pub struct ExSender<T>(Sender<T>);

/// `tokio::sync::broadcast::Receiver`, a receiving half of a broadcast
/// channel. Verus sees nothing inside it.
#[verifier::external_type_specification]
#[verifier::external_body]
#[verifier::reject_recursive_types(T)]
pub struct ExReceiver<T>(Receiver<T>);

/// `tokio::sync::broadcast::error::SendError`, the error of a send that
/// found no receiver. Verus sees nothing inside it.
#[verifier::external_type_specification]
#[verifier::external_body]
#[verifier::reject_recursive_types(T)]
pub struct ExSendError<T>(SendError<T>);

/// `Sender::new` makes a channel that keeps up to `capacity` signals and has
/// no receiver yet. It panics on a capacity of zero and on one above
/// `usize::MAX / 2`, so both are left out. Nothing is claimed of the sender.
pub assume_specification<T>[ Sender::<T>::new ](capacity: usize) -> (tx: Sender<T>)
    requires
        0 < capacity <= usize::MAX / 2,
;

/// `Sender::subscribe` attaches a new receiver, which sees the signals sent
/// after the call. Nothing is claimed of the receiver. The call panics if
/// the channel already counts `usize::MAX >> 2` receivers that were attached
/// and never dropped. That count lives in the channel, where other handles
/// change it, so no `requires` can speak of it.
pub assume_specification<T>[ Sender::<T>::subscribe ](tx: &Sender<T>) -> (rx: Receiver<T>)
;

/// `Sender::send` stores the message for the receivers attached at that moment
/// and returns without waiting for any of them. It returns how many there
/// are, or the message back in an error when there are none. Which of the two
/// comes back depends on who is subscribed, so nothing is claimed of it.
pub assume_specification<T>[ Sender::<T>::send ](tx: &Sender<T>, message: T) -> (r: Result<
    usize,
    SendError<T>,
>)
;

} // verus!
