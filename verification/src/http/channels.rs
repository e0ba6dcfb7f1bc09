//! The channels of `tokio` that connect a request to the tasks which wait for it.
//!
//! Only the ends are held here. Waiting on a channel is the runtime's work.

use crate::http::error::HttpError;
use bytes::Bytes;
use tokio::sync::oneshot::{Receiver, Sender};
use vstd::prelude::*;

verus! {

/// The sending end of a channel for a single value.
#[verifier::external_type_specification]
#[verifier::external_body]
#[verifier::reject_recursive_types(T)]
pub struct ExOneshotSender<T>(tokio::sync::oneshot::Sender<T>);

/// The receiving end of a channel for a single value.
#[verifier::external_type_specification]
#[verifier::external_body]
#[verifier::reject_recursive_types(T)]
pub struct ExOneshotReceiver<T>(tokio::sync::oneshot::Receiver<T>);

/// The word that the sending end of a channel for a single value is gone. No signature holds
/// it, but Verus knows the receiving end, a future whose output holds it, only together with
/// it.
#[verifier::external_type_specification]
#[verifier::external_body]
pub struct ExRecvError(tokio::sync::oneshot::error::RecvError);

/// The sending end of a bounded queue.
#[verifier::external_type_specification]
#[verifier::external_body]
#[verifier::reject_recursive_types(T)]
pub struct ExQueueSender<T>(tokio::sync::mpsc::Sender<T>);

/// The receiving end of a bounded queue.
#[verifier::external_type_specification]
#[verifier::external_body]
#[verifier::reject_recursive_types(T)]
pub struct ExQueueReceiver<T>(tokio::sync::mpsc::Receiver<T>);

/// The two are the ends of one channel: what goes into the first comes out of the second.
pub uninterp spec fn waiter_joined(
    sender: tokio::sync::oneshot::Sender<()>,
    receiver: tokio::sync::oneshot::Receiver<()>,
) -> bool;

/// The two are the ends of one channel: what goes into the first comes out of the second.
pub uninterp spec fn tracker_joined(
    sender: tokio::sync::oneshot::Sender<Result<bool, HttpError>>,
    receiver: tokio::sync::oneshot::Receiver<Result<bool, HttpError>>,
) -> bool;

/// The two are the ends of one queue of this capacity: what goes into the first comes out of
/// the second.
pub uninterp spec fn queue_joined(
    sender: tokio::sync::mpsc::Sender<Bytes>,
    receiver: tokio::sync::mpsc::Receiver<Bytes>,
    capacity: usize,
) -> bool;

/// The word was sent into the channel, and this was the answer.
pub uninterp spec fn waiter_answered(
    sender: tokio::sync::oneshot::Sender<()>,
    sent: Result<(), ()>,
) -> bool;

/// This word was sent into the channel, and this was the answer.
pub uninterp spec fn tracker_answered(
    sender: tokio::sync::oneshot::Sender<Result<bool, HttpError>>,
    word: Result<bool, HttpError>,
    sent: Result<(), Result<bool, HttpError>>,
) -> bool;

/// `oneshot::channel` opens a channel for a single value and gives out its two ends, here
/// for the word that a response is complete.
#[verifier::external_body]
pub(crate) fn waiter_channel() -> (ends: (Sender<()>, Receiver<()>))
    ensures
        waiter_joined(ends.0, ends.1),
{
    tokio::sync::oneshot::channel()
}

/// `oneshot::channel` opens a channel for a single value and gives out its two ends, here
/// for the word how a response ended.
#[verifier::external_body]
pub(crate) fn tracker_channel() -> (ends: (
    Sender<Result<bool, HttpError>>,
    Receiver<Result<bool, HttpError>>,
))
    ensures
        tracker_joined(ends.0, ends.1),
{
    tokio::sync::oneshot::channel()
}

/// `oneshot::Sender::send` hands a value to the receiving end, here the word that a response
/// is complete. Where that end is gone it gives the value back; whether it is gone depends
/// on the tasks that hold it, so the answer is left open.
#[verifier::external_body]
pub(crate) fn send_to_waiter(sender: Sender<()>) -> (sent: Result<(), ()>)
    ensures
        waiter_answered(sender, sent),
{
    sender.send(())
}

/// `oneshot::Sender::send` hands a value to the receiving end, here the word how a response
/// ended. Where that end is gone it gives the value back; whether it is gone depends on the
/// tasks that hold it, so which of the two answers comes is left open.
#[verifier::external_body]
pub(crate) fn send_to_tracker(
    sender: Sender<Result<bool, HttpError>>,
    word: Result<bool, HttpError>,
) -> (sent: Result<(), Result<bool, HttpError>>)
    ensures
        tracker_answered(sender, word, sent),
        sent matches Err(back) ==> back == word,
{
    sender.send(word)
}

/// `mpsc::channel` opens a queue for up to `capacity` buffers and gives out its two ends. It
/// panics where the capacity is zero or beyond the number of permits a semaphore can hold.
#[verifier::external_body]
pub(crate) fn queue_channel(capacity: usize) -> (ends: (
    tokio::sync::mpsc::Sender<Bytes>,
    tokio::sync::mpsc::Receiver<Bytes>,
))
    requires
        0 < capacity <= usize::MAX / 8,
    ensures
        queue_joined(ends.0, ends.1, capacity),
{
    tokio::sync::mpsc::channel(capacity)
}

} // verus!
