use tokio::sync::mpsc::{Receiver, Sender};
use vstd::prelude::*;
use crate::message::Message;

verus! {

#[verifier::external_type_specification]
#[verifier::external_body]
#[verifier::reject_recursive_types(T)]
pub struct ExSender<T>(Sender<T>);

#[verifier::external_type_specification]
#[verifier::external_body]
#[verifier::reject_recursive_types(T)]
pub struct ExReceiver<T>(Receiver<T>);

/// The channel that a sending end belongs to: two sending ends with the
/// same value send into one queue.
pub uninterp spec fn sender_channel(s: Sender<Message>) -> nat;

/// The channel that a receiving end belongs to, on the same scale as
/// `sender_channel`: a receiver yields what is sent on the senders whose
/// channel is the same.
pub uninterp spec fn receiver_channel(r: Receiver<Message>) -> nat;

/// The number of messages that the channel of a sending end holds at most
/// (what `Sender::max_capacity` returns).
pub uninterp spec fn channel_bound(s: Sender<Message>) -> nat;

/// Relies on tokio::sync::mpsc::channel: both ends share one new channel
/// (one `Arc<Chan>`) that holds at most `buffer` messages. It panics when the
/// bound is zero or beyond its semaphore's largest permit count
/// (`usize::MAX >> 3`, which is `usize::MAX / 8`).
#[verifier::external_body]
pub(crate) fn open_channel(buffer: usize) -> (r: (Sender<Message>, Receiver<Message>))
    requires
        0 < buffer <= usize::MAX / 8,
    ensures
        sender_channel(r.0) == receiver_channel(r.1),
        channel_bound(r.0) == buffer,
{
    tokio::sync::mpsc::channel(buffer)
}

/// Relies on `Clone for tokio::sync::mpsc::Sender`: the clone shares the
/// original's `Arc<Chan>`, so it sends into the same channel.
#[verifier::external_body]
pub(crate) fn clone_sender(s: &Sender<Message>) -> (r: Sender<Message>)
    ensures
        sender_channel(r) == sender_channel(*s),
        channel_bound(r) == channel_bound(*s),
{
    s.clone()
}

} // verus!
