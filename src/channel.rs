//! Non-blocking send and receive over an unbounded multi-producer,
//! multi-consumer queue.
//!
//! An empty queue and a disconnected one are told apart: receiving from a
//! queue that is merely empty gives `Ok(None)`, while a queue whose senders
//! are all gone and that holds nothing gives `Err(RecvError::Disconnected)`.
use vstd::prelude::*;

verus! {

#[verifier::external_type_specification]
#[verifier::external_body]
#[verifier::reject_recursive_types(T)]
pub struct ExSender<T>(crossbeam_channel::Sender<T>);

#[verifier::external_type_specification]
#[verifier::external_body]
#[verifier::reject_recursive_types(T)]
pub struct ExReceiver<T>(crossbeam_channel::Receiver<T>);

#[verifier::external_type_specification]
pub struct ExTryRecvError(crossbeam_channel::TryRecvError);

#[verifier::external_type_specification]
#[verifier::reject_recursive_types(T)]
pub struct ExTrySendError<T>(crossbeam_channel::TrySendError<T>);

/// Relies on `crossbeam_channel::unbounded`: a fresh channel with no capacity
/// bound; nothing is stated of the handles.
pub assume_specification<T>[ crossbeam_channel::unbounded::<T> ]() -> (crossbeam_channel::Sender<
    T,
>, crossbeam_channel::Receiver<T>);

/// Relies on `crossbeam_channel::Sender::try_send`: on failure the error
/// carries the message that was offered.
pub assume_specification<T>[ crossbeam_channel::Sender::<T>::try_send ](
    s: &crossbeam_channel::Sender<T>,
    msg: T,
) -> (r: Result<(), crossbeam_channel::TrySendError<T>>)
    ensures
        match r {
            Ok(()) => true,
            Err(crossbeam_channel::TrySendError::Full(m)) => m == msg,
            Err(crossbeam_channel::TrySendError::Disconnected(m)) => m == msg,
        },
;

/// Relies on `crossbeam_channel::Receiver::try_recv`: which outcome comes
/// depends on the other handles, so nothing is stated of it.
pub assume_specification<T>[ crossbeam_channel::Receiver::<T>::try_recv ](
    r: &crossbeam_channel::Receiver<T>,
) -> Result<T, crossbeam_channel::TryRecvError>;

/// Relies on `Clone for crossbeam_channel::Sender`: another handle on the same
/// channel.
pub assume_specification<T>[ <crossbeam_channel::Sender<T> as Clone>::clone ](
    s: &crossbeam_channel::Sender<T>,
) -> crossbeam_channel::Sender<T>;

/// Relies on `Clone for crossbeam_channel::Receiver`: another handle on the
/// same channel.
pub assume_specification<T>[ <crossbeam_channel::Receiver<T> as Clone>::clone ](
    r: &crossbeam_channel::Receiver<T>,
) -> crossbeam_channel::Receiver<T>;

/// Why a message could not be sent; the message is handed back.
pub enum SendError<T> {
    /// The queue is at capacity; an unbounded queue never is.
    Full(T),
    /// Every receiver has been dropped.
    Disconnected(T),
}

/// Why no message could be received.
#[derive(PartialEq, Eq, Structural, Clone, Copy, Debug)]
pub enum RecvError {
    /// The queue is empty and every sender has been dropped.
    Disconnected,
}

/// The sending side of a channel.
#[verifier::reject_recursive_types(T)]
pub struct SendHandle<T> {
    inner: crossbeam_channel::Sender<T>,
}

/// The receiving side of a channel.
#[verifier::reject_recursive_types(T)]
pub struct RecvHandle<T> {
    inner: crossbeam_channel::Receiver<T>,
}

/// Creates an unbounded channel and returns its first sender and receiver.
pub fn create<T>() -> (SendHandle<T>, RecvHandle<T>) {
    let (s, r) = crossbeam_channel::unbounded();
    (SendHandle { inner: s }, RecvHandle { inner: r })
}

/// The library's outcome of a send for each outcome of the queue's own
/// non-blocking send: success stays success, and each failure keeps its kind
/// and hands the message back.
pub fn settle_send<T>(r: Result<(), crossbeam_channel::TrySendError<T>>) -> (o: Result<
    (),
    SendError<T>,
>)
    ensures
        match r {
            Ok(()) => o is Ok,
            Err(crossbeam_channel::TrySendError::Full(m)) => o == Err::<(), _>(SendError::Full(m)),
            Err(crossbeam_channel::TrySendError::Disconnected(m)) => o == Err::<(), _>(
                SendError::Disconnected(m),
            ),
        },
{
    match r {
        Ok(()) => Ok(()),
        Err(crossbeam_channel::TrySendError::Full(m)) => Err(SendError::Full(m)),
        Err(crossbeam_channel::TrySendError::Disconnected(m)) => Err(SendError::Disconnected(m)),
    }
}

/// The library's outcome of a receive for each outcome of the queue's own
/// non-blocking receive: a message is handed on, an empty queue gives
/// `Ok(None)`, and an empty disconnected queue gives `Disconnected`.
pub fn settle_receive<T>(r: Result<T, crossbeam_channel::TryRecvError>) -> (o: Result<
    Option<T>,
    RecvError,
>)
    ensures
        match r {
            Ok(m) => o == Ok::<_, RecvError>(Some(m)),
            Err(crossbeam_channel::TryRecvError::Empty) => o == Ok::<_, RecvError>(None::<T>),
            Err(crossbeam_channel::TryRecvError::Disconnected) => o == Err::<Option<T>, _>(
                RecvError::Disconnected,
            ),
        },
{
    match r {
        Ok(m) => Ok(Some(m)),
        Err(crossbeam_channel::TryRecvError::Empty) => Ok(None),
        Err(crossbeam_channel::TryRecvError::Disconnected) => Err(RecvError::Disconnected),
    }
}

impl<T> SendHandle<T> {
    /// Enqueues `msg` without blocking. Fails, handing `msg` back, when every
    /// receiver has been dropped.
    pub fn try_send(&self, msg: T) -> (r: Result<(), SendError<T>>)
        ensures
            match r {
                Ok(()) => true,
                Err(SendError::Full(m)) => m == msg,
                Err(SendError::Disconnected(m)) => m == msg,
            },
    {
        settle_send(self.inner.try_send(msg))
    }

    /// Another sender on the same channel.
    pub fn clone_handle(&self) -> SendHandle<T> {
        SendHandle { inner: self.inner.clone() }
    }
}

impl<T> RecvHandle<T> {
    /// Takes the oldest pending message without blocking: `Ok(Some(m))` when
    /// there is one, `Ok(None)` when the queue is empty but a sender remains,
    /// and `Err(RecvError::Disconnected)` when it is empty and every sender
    /// has been dropped.
    pub fn try_receive(&self) -> (r: Result<Option<T>, RecvError>) {
        settle_receive(self.inner.try_recv())
    }

    /// Another receiver on the same channel.
    pub fn clone_handle(&self) -> RecvHandle<T> {
        RecvHandle { inner: self.inner.clone() }
    }
}

} // verus!
