//! The boundary to the broadcast channel primitive: the producer and consumer
//! handle types of `tokio::sync::broadcast` and the handful of calls the
//! library makes on them.
//!
//! The channel's buffer is shared between the one producer handle and every
//! consumer handle, and other handles may act on it between any two calls
//! made here. Nothing is therefore promised about what these calls return;
//! the verified code around them states what holds of every outcome.

use vstd::prelude::*;

use tokio::sync::broadcast::{Receiver, Sender};

verus! {

/// One raw observation made on a consumer handle: either the next buffered
/// value, a notice that `missed` values were overwritten before they could be
/// read, the end of the channel, or nothing available yet.
#[derive(Clone, Debug, PartialEq, Eq)]
pub enum RawEvent<T> {
    /// The next value in publish order.
    Item(T),
    /// The consumer fell behind; `missed` values were skipped.
    Lagged(u64),
    /// The producer handle is gone and no buffered value remains.
    Closed,
    /// No new value has been published yet.
    Empty,
}

#[verifier::external_type_specification]
#[verifier::external_body]
#[verifier::reject_recursive_types(T)]
pub struct ExSender<T>(Sender<T>);

#[verifier::external_type_specification]
#[verifier::external_body]
#[verifier::reject_recursive_types(T)]
pub struct ExReceiver<T>(Receiver<T>);

/// Relies on `tokio::sync::broadcast::Sender::new`: creates the producer half
/// of a channel with no consumers yet. It panics when the capacity is zero or
/// above `usize::MAX / 2`, so those capacities are left out.
pub assume_specification<T>[ Sender::<T>::new ](capacity: usize) -> (sender: Sender<T>)
    requires
        1 <= capacity <= usize::MAX / 2,
;

/// Relies on `tokio::sync::broadcast::Sender::subscribe`: creates a consumer
/// handle that sees only values sent after this call. It asserts that the
/// channel's consumer count stays below a quarter of `usize::MAX`; that many
/// live handles cannot exist in one address space, and the count is kept in
/// the channel's shared state, out of reach of a precondition here.
pub assume_specification<T>[ Sender::<T>::subscribe ](sender: &Sender<T>) -> (receiver: Receiver<
    T,
>);

/// Relies on `tokio::sync::broadcast::Sender::receiver_count`: the number of
/// consumer handles currently attached to the channel.
pub assume_specification<T>[ Sender::<T>::receiver_count ](sender: &Sender<T>) -> (count: usize);

/// Relies on `tokio::sync::broadcast::Sender::send`: hands one copy of the
/// value to the channel for every live consumer handle. Its `Err` only means
/// that no consumer was attached at the moment of the call; either way the
/// producer carries on, so the result is reduced to the number of consumers
/// the value was handed to.
#[verifier::external_body]
pub(crate) fn send_latest<T: Clone>(sender: &Sender<T>, value: &T) -> (delivered: usize) {
    match sender.send(value.clone()) {
        Ok(count) => count,
        Err(_) => 0,
    }
}

/// Relies on `tokio::sync::broadcast::Receiver::try_recv`: reads the next
/// value without suspending. Its error enum is carried over arm by arm:
/// `Empty`, `Closed` and `Lagged` keep their meaning and the lag keeps its
/// missed-value count.
#[verifier::external_body]
pub(crate) fn poll_raw<T: Clone>(receiver: &mut Receiver<T>) -> (event: RawEvent<T>) {
    match receiver.try_recv() {
        Ok(value) => RawEvent::Item(value),
        Err(tokio::sync::broadcast::error::TryRecvError::Empty) => RawEvent::Empty,
        Err(tokio::sync::broadcast::error::TryRecvError::Closed) => RawEvent::Closed,
        Err(tokio::sync::broadcast::error::TryRecvError::Lagged(missed)) => RawEvent::Lagged(
            missed,
        ),
    }
}

} // verus!
