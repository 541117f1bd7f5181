use vstd::prelude::*;

verus! {

/// Where one streaming connection stands. It only ever moves forward:
/// `Open`, then `Forwarding`, then `Closing`, then `Closed`.
#[derive(PartialEq, Eq, Structural, Clone, Copy, Debug)]
pub enum BridgeState {
    /// The connection is open and has no subscriber yet.
    Open,
    /// Subscriber `0` is registered; its messages are being forwarded.
    Forwarding(usize),
    /// Forwarding has ended; subscriber `0` is being unsubscribed.
    Closing(usize),
    /// The subscriber is gone and the outbound stream is closed.
    Closed,
}

/// What the driver of a connection saw after carrying out the last action.
#[derive(PartialEq, Eq, Structural, Clone, Copy, Debug)]
pub enum BridgeEvent {
    /// The hub registered the connection as subscriber `0`.
    Subscribed(usize),
    /// The subscriber's channel gave a message.
    Received,
    /// The subscriber's channel ended: its sending end is gone.
    EndOfStream,
    /// The message was written to the outbound stream.
    Written,
    /// The outbound stream refused the message: its peer is gone.
    WriteFailed,
    /// The hub removed the subscriber.
    Unsubscribed,
}

/// What the driver of a connection is to do next.
#[derive(PartialEq, Eq, Structural, Clone, Copy, Debug)]
pub enum BridgeAction {
    /// Register with the hub.
    Subscribe,
    /// Wait for the next message on the subscriber's channel.
    Receive,
    /// Write the message just received to the outbound stream.
    Write,
    /// Remove subscriber `0` from the hub.
    Unsubscribe(usize),
    /// Close the outbound stream; the connection is done.
    CloseStream,
    /// Nothing: the event does not belong to this state.
    Ignore,
}

/// The position of a state in the forward order of the protocol.
pub open spec fn rank(s: BridgeState) -> nat {
    match s {
        BridgeState::Open => 0,
        BridgeState::Forwarding(_) => 1,
        BridgeState::Closing(_) => 2,
        BridgeState::Closed => 3,
    }
}

impl BridgeState {
    /// A new connection: it starts open and first subscribes.
    pub fn start() -> (r: (BridgeState, BridgeAction))
        ensures
            r == (BridgeState::Open, BridgeAction::Subscribe),
    {
        (BridgeState::Open, BridgeAction::Subscribe)
    }

    /// One step of the protocol of a connection. Forwarding ends on the first
    /// failed write or at the end of the channel, and it always ends with
    /// the subscriber's removal before the stream is closed. An event that
    /// does not belong to the state changes nothing.
    pub fn step(self, event: BridgeEvent) -> (r: (BridgeState, BridgeAction))
        ensures
            rank(r.0) >= rank(self),
            self == BridgeState::Open && event is Subscribed
                ==> r == (BridgeState::Forwarding(event->Subscribed_0), BridgeAction::Receive),
            self is Forwarding && event == BridgeEvent::Received ==> r == (self, BridgeAction::Write),
            self is Forwarding && event == BridgeEvent::Written ==> r == (self, BridgeAction::Receive),
            self is Forwarding && (event == BridgeEvent::EndOfStream || event == BridgeEvent::WriteFailed)
                ==> r == (
                    BridgeState::Closing(self->Forwarding_0),
                    BridgeAction::Unsubscribe(self->Forwarding_0),
                ),
            self is Closing && event == BridgeEvent::Unsubscribed
                ==> r == (BridgeState::Closed, BridgeAction::CloseStream),
            !(self == BridgeState::Open && event is Subscribed)
                && !(self is Forwarding && !(event is Subscribed) && event != BridgeEvent::Unsubscribed)
                && !(self is Closing && event == BridgeEvent::Unsubscribed)
                ==> r == (self, BridgeAction::Ignore),
    {
        match (self, event) {
            (BridgeState::Open, BridgeEvent::Subscribed(id)) => {
                (BridgeState::Forwarding(id), BridgeAction::Receive)
            },
            (BridgeState::Forwarding(_), BridgeEvent::Received) => (self, BridgeAction::Write),
            (BridgeState::Forwarding(_), BridgeEvent::Written) => (self, BridgeAction::Receive),
            (BridgeState::Forwarding(id), BridgeEvent::EndOfStream) => {
                (BridgeState::Closing(id), BridgeAction::Unsubscribe(id))
            },
            (BridgeState::Forwarding(id), BridgeEvent::WriteFailed) => {
                (BridgeState::Closing(id), BridgeAction::Unsubscribe(id))
            },
            (BridgeState::Closing(_), BridgeEvent::Unsubscribed) => {
                (BridgeState::Closed, BridgeAction::CloseStream)
            },
            _ => (self, BridgeAction::Ignore),
        }
    }

    /// Whether the connection is done.
    pub fn is_closed(&self) -> (r: bool)
        ensures
            r == (*self == BridgeState::Closed),
    {
        match self {
            BridgeState::Closed => true,
            _ => false,
        }
    }
}

} // verus!
