//! A channel that holds at most one value and needs no locking.
//!
//! The two ends share one [`AsyncHandoff`]. Each end makes futures, and polling a future
//! against the shared state either completes it or leaves the caller's waker behind. A
//! waker that has to be woken is handed back to the caller, who wakes it once the shared
//! state is no longer borrowed.

use crate::poll::Poll;
use std::marker::PhantomData;
use vstd::prelude::*;

verus! {

/// Why a send or a receive can no longer succeed.
#[derive(Debug, Clone, Copy, PartialEq, Eq, Structural)]
pub enum HandoffError {
    /// The other end is gone.
    Closed,
}

impl HandoffError {
    /// The text of the error.
    pub fn message(&self) -> (text: &'static str)
        ensures
            text@ == "Channel closed"@,
    {
        "Channel closed"
    }
}

/// What the two ends of a channel share.
pub struct AsyncHandoff<T, W> {
    value: Option<T>,
    recv_alive: bool,
    recv_waker: Option<W>,
    send_alive: bool,
    send_waker: Option<W>,
    channel: Ghost<int>,
}

/// The contents of an [`AsyncHandoff`].
pub struct HandoffState<T, W> {
    /// The value that was sent and not yet received.
    pub value: Option<T>,
    /// Whether the receiver still exists.
    pub recv_alive: bool,
    /// The task that waits for a value.
    pub recv_waker: Option<W>,
    /// Whether the sender still exists.
    pub send_alive: bool,
    /// The task that waits for the value to be picked up.
    pub send_waker: Option<W>,
}

impl<T, W> View for AsyncHandoff<T, W> {
    type V = HandoffState<T, W>;

    closed spec fn view(&self) -> HandoffState<T, W> {
        HandoffState {
            value: self.value,
            recv_alive: self.recv_alive,
            recv_waker: self.recv_waker,
            send_alive: self.send_alive,
            send_waker: self.send_waker,
        }
    }
}

impl<T, W> AsyncHandoff<T, W> {
    /// The channel that this is the shared state of.
    pub closed spec fn channel(&self) -> int {
        self.channel@
    }

    /// Whether a send may be polled now.
    pub fn can_poll_send_now(&self) -> (r: bool)
        ensures
            r == self@.can_poll_send(),
    {
        !self.recv_alive || self.send_waker.is_none()
    }

    /// Whether a receive may be polled now.
    pub fn can_poll_recv_now(&self) -> (r: bool)
        ensures
            r == self@.can_poll_recv(),
    {
        self.recv_waker.is_none()
    }

    /// Whether polling a send now moves its value into the channel.
    pub fn accepts_now(&self) -> (r: bool)
        ensures
            r == self@.accepts(),
    {
        self.recv_alive && self.value.is_none()
    }
}

impl<T, W> HandoffState<T, W> {
    /// A channel on which nothing has happened yet.
    pub open spec fn fresh() -> Self {
        HandoffState {
            value: None,
            recv_alive: true,
            recv_waker: None,
            send_alive: true,
            send_waker: None,
        }
    }

    /// A receiver waits only while there is no value, a sender only while there is one.
    pub open spec fn wf(self) -> bool {
        &&& self.recv_waker is Some ==> self.value is None
        &&& self.send_waker is Some ==> self.value is Some
    }

    /// A send may be polled: the receiver is gone, or no other send is waiting.
    pub open spec fn can_poll_send(self) -> bool {
        self.recv_alive ==> self.send_waker is None
    }

    /// A receive may be polled: no other receive is waiting.
    pub open spec fn can_poll_recv(self) -> bool {
        self.recv_waker is None
    }

    /// The channel after a send of `value` was polled with `waker`.
    pub open spec fn after_send(self, value: T, waker: W) -> Self {
        if !self.recv_alive {
            self
        } else if self.value is Some {
            HandoffState { send_waker: Some(waker), ..self }
        } else {
            HandoffState { value: Some(value), recv_waker: None, ..self }
        }
    }

    /// What polling a send answers.
    pub open spec fn send_result(self) -> Poll<Result<(), HandoffError>> {
        if !self.recv_alive {
            Poll::Ready(Err(HandoffError::Closed))
        } else if self.value is Some {
            Poll::Pending
        } else {
            Poll::Ready(Ok(()))
        }
    }

    /// The task to wake once a send was polled.
    pub open spec fn woken_by_send(self) -> Option<W> {
        if self.recv_alive && self.value is None {
            self.recv_waker
        } else {
            None
        }
    }

    /// Whether polling a send moves its value into the channel.
    pub open spec fn accepts(self) -> bool {
        self.recv_alive && self.value is None
    }

    /// The channel after a receive was polled with `waker`.
    pub open spec fn after_recv(self, waker: W) -> Self {
        if self.value is Some {
            HandoffState { value: None, send_waker: None, ..self }
        } else if !self.send_alive {
            self
        } else {
            HandoffState { recv_waker: Some(waker), ..self }
        }
    }

    /// What polling a receive answers.
    pub open spec fn recv_result(self) -> Poll<Result<T, HandoffError>> {
        match self.value {
            Some(value) => Poll::Ready(Ok(value)),
            None => if !self.send_alive {
                Poll::Ready(Err(HandoffError::Closed))
            } else {
                Poll::Pending
            },
        }
    }

    /// The task to wake once a receive was polled.
    pub open spec fn woken_by_recv(self) -> Option<W> {
        if self.value is Some {
            self.send_waker
        } else {
            None
        }
    }

    /// The channel after the sender was dropped.
    pub open spec fn without_sender(self) -> Self {
        HandoffState { send_alive: false, ..self }
    }

    /// The channel after the receiver was dropped.
    pub open spec fn without_receiver(self) -> Self {
        HandoffState { recv_alive: false, ..self }
    }
}

/// The end that sends. It belongs to one channel.
pub struct AsyncHandoffSender<T> {
    marker: PhantomData<T>,
    channel: Ghost<int>,
}

/// The end that receives. It belongs to one channel.
pub struct AsyncHandoffReceiver<T> {
    marker: PhantomData<T>,
    channel: Ghost<int>,
}

/// Opens a channel: the shared state and its two ends, which belong to it. Nothing is said of
/// which channel it is, so ends of another one cannot be taken for its own.
pub fn new<T, W>() -> (r: (AsyncHandoff<T, W>, AsyncHandoffSender<T>, AsyncHandoffReceiver<T>))
    ensures
        r.0@ == HandoffState::<T, W>::fresh(),
        r.0@.wf(),
        r.1.channel() == r.0.channel(),
        r.2.channel() == r.0.channel(),
{
    let ghost channel: int = arbitrary();
    let handoff = AsyncHandoff {
        value: None,
        recv_alive: true,
        recv_waker: None,
        send_alive: true,
        send_waker: None,
        channel: Ghost(channel),
    };
    (
        handoff,
        AsyncHandoffSender { marker: PhantomData, channel: Ghost(channel) },
        AsyncHandoffReceiver { marker: PhantomData, channel: Ghost(channel) },
    )
}

/// A send under way. It owns the value until the channel takes it.
pub struct AsyncHandoffSenderFuture<'a, T>(&'a AsyncHandoffSender<T>, Option<T>);

impl<'a, T> AsyncHandoffSenderFuture<'a, T> {
    /// The end that sends.
    pub closed spec fn sender(&self) -> &AsyncHandoffSender<T> {
        self.0
    }

    /// The value that the channel has not taken yet.
    pub closed spec fn unsent(&self) -> Option<T> {
        self.1
    }

    /// The channel that the value goes into.
    pub closed spec fn channel(&self) -> int {
        self.0.channel()
    }

    /// Whether the channel has taken the value.
    pub fn is_sent(&self) -> (r: bool)
        ensures
            r == (self.unsent() is None),
    {
        self.1.is_none()
    }

    /// Tries to put the value into the channel. Completes with an error where the
    /// receiver is gone, waits where an earlier value was not picked up yet, and completes
    /// otherwise. The second part of the result is the receiver's waker, to be woken.
    pub fn poll<W>(&mut self, handoff: &mut AsyncHandoff<T, W>, waker: W) -> (r: (
        Poll<Result<(), HandoffError>>,
        Option<W>,
    ))
        requires
            old(self).channel() == old(handoff).channel(),
            old(handoff)@.wf(),
            old(handoff)@.can_poll_send(),
            old(handoff)@.accepts() ==> old(self).unsent() is Some,
        ensures
            final(handoff)@ == old(handoff)@.after_send(old(self).unsent()->0, waker),
            final(handoff)@.wf(),
            r.0 == old(handoff)@.send_result(),
            r.1 == old(handoff)@.woken_by_send(),
            final(handoff).channel() == old(handoff).channel(),
            final(self).channel() == old(self).channel(),
            final(self).sender() == old(self).sender(),
            final(self).unsent() == (if old(handoff)@.accepts() {
                None
            } else {
                old(self).unsent()
            }),
    {
        if !handoff.recv_alive {
            return (Poll::Ready(Err(HandoffError::Closed)), None);
        }
        if handoff.value.is_some() {
            handoff.send_waker = Some(waker);
            return (Poll::Pending, None);
        }
        handoff.value = self.1.take();
        let woken = handoff.recv_waker.take();
        (Poll::Ready(Ok(())), woken)
    }
}

/// A receive under way.
pub struct AsyncHandoffReceiverFuture<'a, T>(&'a AsyncHandoffReceiver<T>);

impl<'a, T> AsyncHandoffReceiverFuture<'a, T> {
    /// The end that receives.
    pub closed spec fn receiver(&self) -> &AsyncHandoffReceiver<T> {
        self.0
    }

    /// The channel that the value comes from.
    pub closed spec fn channel(&self) -> int {
        self.0.channel()
    }

    /// Tries to take the value out of the channel. A value that was sent before the sender
    /// was dropped is still delivered; only then does the receive complete with an error.
    /// The second part of the result is the sender's waker, to be woken.
    pub fn poll<W>(&mut self, handoff: &mut AsyncHandoff<T, W>, waker: W) -> (r: (
        Poll<Result<T, HandoffError>>,
        Option<W>,
    ))
        requires
            old(self).channel() == old(handoff).channel(),
            old(handoff)@.wf(),
            old(handoff)@.can_poll_recv(),
        ensures
            final(handoff)@ == old(handoff)@.after_recv(waker),
            final(handoff)@.wf(),
            r.0 == old(handoff)@.recv_result(),
            r.1 == old(handoff)@.woken_by_recv(),
            final(handoff).channel() == old(handoff).channel(),
            final(self).channel() == old(self).channel(),
            final(self).receiver() == old(self).receiver(),
    {
        if let Some(value) = handoff.value.take() {
            let woken = handoff.send_waker.take();
            return (Poll::Ready(Ok(value)), woken);
        }
        if !handoff.send_alive {
            return (Poll::Ready(Err(HandoffError::Closed)), None);
        }
        handoff.recv_waker = Some(waker);
        (Poll::Pending, None)
    }
}

impl<T> AsyncHandoffSender<T> {
    /// The channel that the end belongs to.
    pub closed spec fn channel(&self) -> int {
        self.channel@
    }

    /// Starts to send a value into the channel that the end belongs to.
    pub fn send(&self, t: T) -> (future: AsyncHandoffSenderFuture<'_, T>)
        ensures
            future.sender() == self,
            future.channel() == self.channel(),
            future.unsent() == Some(t),
    {
        AsyncHandoffSenderFuture(self, Some(t))
    }

    /// Gives up the sending end.
    pub fn drop<W>(self, handoff: &mut AsyncHandoff<T, W>)
        requires
            self.channel() == old(handoff).channel(),
            old(handoff)@.wf(),
        ensures
            final(handoff).channel() == old(handoff).channel(),
            final(handoff)@ == old(handoff)@.without_sender(),
            final(handoff)@.wf(),
    {
        handoff.send_alive = false;
    }
}

impl<T> AsyncHandoffReceiver<T> {
    /// The channel that the end belongs to.
    pub closed spec fn channel(&self) -> int {
        self.channel@
    }

    /// Starts to receive a value from the channel that the end belongs to.
    pub fn recv(&self) -> (future: AsyncHandoffReceiverFuture<'_, T>)
        ensures
            future.receiver() == self,
            future.channel() == self.channel(),
    {
        AsyncHandoffReceiverFuture(self)
    }

    /// Gives up the receiving end.
    pub fn drop<W>(self, handoff: &mut AsyncHandoff<T, W>)
        requires
            self.channel() == old(handoff).channel(),
            old(handoff)@.wf(),
        ensures
            final(handoff).channel() == old(handoff).channel(),
            final(handoff)@ == old(handoff)@.without_receiver(),
            final(handoff)@.wf(),
    {
        handoff.recv_alive = false;
    }
}

/// Something that happens on a channel.
pub enum HandoffEvent<T, W> {
    /// A send of a value was polled.
    Send(T, W),
    /// A receive was polled.
    Recv(W),
    /// The sender was dropped.
    DropSender,
    /// The receiver was dropped.
    DropReceiver,
}

/// A channel together with what went into it and what came out of it.
pub struct HandoffHistory<T, W> {
    /// The channel itself.
    pub state: HandoffState<T, W>,
    /// The values whose send completed, in order.
    pub accepted: Seq<T>,
    /// The values that were received, in order.
    pub received: Seq<T>,
}

impl<T, W> HandoffHistory<T, W> {
    /// A fresh channel with no past.
    pub open spec fn fresh() -> Self {
        HandoffHistory {
            state: HandoffState::fresh(),
            accepted: Seq::empty(),
            received: Seq::empty(),
        }
    }

    /// Whether the event may happen now.
    pub open spec fn allows(self, event: HandoffEvent<T, W>) -> bool {
        match event {
            HandoffEvent::Send(_, _) => self.state.can_poll_send(),
            HandoffEvent::Recv(_) => self.state.can_poll_recv(),
            _ => true,
        }
    }

    /// One more event.
    pub open spec fn then_event(self, event: HandoffEvent<T, W>) -> Self {
        match event {
            HandoffEvent::Send(value, waker) => HandoffHistory {
                state: self.state.after_send(value, waker),
                accepted: if self.state.send_result() == Poll::<Result<(), HandoffError>>::Ready(
                    Ok(()),
                ) {
                    self.accepted.push(value)
                } else {
                    self.accepted
                },
                received: self.received,
            },
            HandoffEvent::Recv(waker) => HandoffHistory {
                state: self.state.after_recv(waker),
                accepted: self.accepted,
                received: match self.state.recv_result() {
                    Poll::Ready(Ok(value)) => self.received.push(value),
                    _ => self.received,
                },
            },
            HandoffEvent::DropSender => HandoffHistory {
                state: self.state.without_sender(),
                ..self
            },
            HandoffEvent::DropReceiver => HandoffHistory {
                state: self.state.without_receiver(),
                ..self
            },
        }
    }

    /// A fresh channel after a series of events.
    pub open spec fn after(events: Seq<HandoffEvent<T, W>>) -> Self
        decreases events.len(),
    {
        if events.len() == 0 {
            Self::fresh()
        } else {
            Self::after(events.drop_last()).then_event(events.last())
        }
    }
}

/// The values that a channel still holds: none or one.
pub open spec fn held<T, W>(state: HandoffState<T, W>) -> Seq<T> {
    match state.value {
        Some(value) => seq![value],
        None => Seq::empty(),
    }
}

/// Whatever happens on a channel, the values received and the value still held are
/// together exactly the values accepted, in the order in which they were accepted:
/// nothing is lost, doubled, invented or reordered.
pub proof fn law_delivers_in_order<T, W>(events: Seq<HandoffEvent<T, W>>)
    ensures
        ({
            let h = HandoffHistory::after(events);
            h.received + held(h.state) == h.accepted
        }),
    decreases events.len(),
{
    if events.len() > 0 {
        law_delivers_in_order(events.drop_last());
        let before = HandoffHistory::after(events.drop_last());
        let h = HandoffHistory::after(events);
        assert(h.received + held(h.state) =~= h.accepted);
    }
}

/// At every point of a channel's life at most one of the two ends waits, and for a reason:
/// the receiver for want of a value, the sender because of one.
pub proof fn law_waits_with_reason<T, W>(events: Seq<HandoffEvent<T, W>>)
    ensures
        HandoffHistory::after(events).state.wf(),
    decreases events.len(),
{
    if events.len() > 0 {
        law_waits_with_reason(events.drop_last());
    }
}

/// A value sent into an empty channel whose receiver exists is what the next receive
/// answers, and the channel is empty again.
pub proof fn law_receive_gives_back_send<T, W>(
    state: HandoffState<T, W>,
    value: T,
    send_waker: W,
    recv_waker: W,
)
    requires
        state.wf(),
        state.recv_alive,
        state.value is None,
    ensures
        state.send_result() == Poll::<Result<(), HandoffError>>::Ready(Ok(())),
        ({
            let sent = state.after_send(value, send_waker);
            &&& sent.recv_result() == Poll::<Result<T, HandoffError>>::Ready(Ok(value))
            &&& sent.after_recv(recv_waker).value is None
            &&& sent.after_recv(recv_waker).recv_alive == state.recv_alive
            &&& sent.after_recv(recv_waker).send_alive == state.send_alive
        }),
{
}

/// A value that was not picked up is never overwritten: the send waits.
pub proof fn law_full_channel_keeps_its_value<T, W>(
    state: HandoffState<T, W>,
    value: T,
    waker: W,
)
    requires
        state.wf(),
        state.recv_alive,
        state.value is Some,
    ensures
        state.send_result() == Poll::<Result<(), HandoffError>>::Pending,
        state.after_send(value, waker).value == state.value,
        state.after_send(value, waker).send_waker == Some(waker),
{
}

/// After the sender is gone a held value is still delivered, and every receive from then
/// on answers that the channel is closed.
pub proof fn law_value_outlives_sender<T, W>(state: HandoffState<T, W>, first: W, second: W)
    requires
        state.wf(),
    ensures
        ({
            let closed = state.without_sender();
            let emptied = if closed.value is Some {
                closed.after_recv(first)
            } else {
                closed
            };
            &&& state.value matches Some(value) ==> closed.recv_result() == Poll::<
                Result<T, HandoffError>,
            >::Ready(Ok(value))
            &&& emptied.recv_result() == Poll::<Result<T, HandoffError>>::Ready(
                Err(HandoffError::Closed),
            )
            &&& emptied.after_recv(second) == emptied
        }),
{
}

/// After the receiver is gone every send answers that the channel is closed and leaves
/// the channel as it was.
pub proof fn law_send_fails_without_receiver<T, W>(
    state: HandoffState<T, W>,
    value: T,
    waker: W,
)
    requires
        state.wf(),
    ensures
        ({
            let closed = state.without_receiver();
            &&& closed.can_poll_send()
            &&& closed.send_result() == Poll::<Result<(), HandoffError>>::Ready(
                Err(HandoffError::Closed),
            )
            &&& closed.after_send(value, waker) == closed
        }),
{
}

/// No waiting task is forgotten: the send that fills the channel wakes the receiver that
/// waited, and the receive that empties it wakes the sender that waited.
pub proof fn law_waiting_end_is_woken<T, W>(
    state: HandoffState<T, W>,
    value: T,
    send_waker: W,
    recv_waker: W,
)
    requires
        state.wf(),
        state.recv_alive,
        state.send_alive,
    ensures
        state.value is None ==> {
            let waiting = state.after_recv(recv_waker);
            &&& waiting.recv_result() == Poll::<Result<T, HandoffError>>::Pending
            &&& waiting.woken_by_send() == Some(recv_waker)
            &&& waiting.after_send(value, send_waker).recv_waker is None
        },
        state.value is Some ==> {
            let waiting = state.after_send(value, send_waker);
            &&& waiting.send_result() == Poll::<Result<(), HandoffError>>::Pending
            &&& waiting.woken_by_recv() == Some(send_waker)
            &&& waiting.after_recv(recv_waker).send_waker is None
        },
{
}

/// A waker left behind stays in place until the event that wakes it: no other event
/// replaces or drops it.
pub proof fn law_wakers_are_kept<T, W>(
    events: Seq<HandoffEvent<T, W>>,
    event: HandoffEvent<T, W>,
)
    requires
        HandoffHistory::after(events).allows(event),
    ensures
        ({
            let before = HandoffHistory::after(events).state;
            let after = HandoffHistory::after(events).then_event(event).state;
            &&& before.recv_waker is Some && after.recv_waker != before.recv_waker ==> event is Send
                && before.woken_by_send() == before.recv_waker
            &&& before.send_waker is Some && after.send_waker != before.send_waker ==> event is Recv
                && before.woken_by_recv() == before.send_waker
        }),
{
    law_waits_with_reason(events);
}

/// What a send answers: that the channel is closed exactly where the receiver is gone, that it
/// has to wait exactly where a value is in its way, and success exactly otherwise. It is then,
/// and only then, that the channel takes the value.
pub proof fn law_send_answers<T, W>(state: HandoffState<T, W>)
    ensures
        state.send_result() == Poll::<Result<(), HandoffError>>::Ready(Err(HandoffError::Closed))
            <==> !state.recv_alive,
        state.send_result() is Pending <==> state.recv_alive && state.value is Some,
        state.send_result() == Poll::<Result<(), HandoffError>>::Ready(Ok(())) <==> state.recv_alive
            && state.value is None,
        state.accepts() <==> state.send_result() == Poll::<Result<(), HandoffError>>::Ready(Ok(())),
{
}

/// What a send changes, by what it answers. On success the channel holds the value, and the
/// receiver that waited is woken and waits no more. Where it has to wait it leaves its waker
/// behind. Nothing else changes, and nobody else is woken.
pub proof fn law_send_effect<T, W>(state: HandoffState<T, W>, value: T, waker: W)
    ensures
        ({
            let after = state.after_send(value, waker);
            let sent = state.send_result() == Poll::<Result<(), HandoffError>>::Ready(Ok(()));
            &&& after.recv_alive == state.recv_alive
            &&& after.send_alive == state.send_alive
            &&& sent ==> {
                &&& after.value == Some(value)
                &&& after.recv_waker is None
                &&& after.send_waker == state.send_waker
                &&& state.woken_by_send() == state.recv_waker
            }
            &&& !sent ==> {
                &&& after.value == state.value
                &&& after.recv_waker == state.recv_waker
                &&& state.woken_by_send() is None
            }
            &&& state.send_result() is Pending ==> after.send_waker == Some(waker)
            &&& !(state.send_result() is Pending) ==> after.send_waker == state.send_waker
        }),
{
}

/// What a receive answers: a value exactly where there is one, and that one; that the channel
/// is closed exactly where there is none and the sender is gone; and that it has to wait
/// exactly otherwise.
pub proof fn law_receive_answers<T, W>(state: HandoffState<T, W>, value: T)
    ensures
        state.recv_result() == Poll::<Result<T, HandoffError>>::Ready(Ok(value)) <==> state.value
            == Some(value),
        state.recv_result() == Poll::<Result<T, HandoffError>>::Ready(Err(HandoffError::Closed))
            <==> state.value is None && !state.send_alive,
        state.recv_result() is Pending <==> state.value is None && state.send_alive,
{
}

/// What a receive changes, by what it answers. With a value the channel is empty, and the
/// sender that waited is woken and waits no more. Where it has to wait it leaves its waker
/// behind. Nothing else changes, and nobody else is woken.
pub proof fn law_receive_effect<T, W>(state: HandoffState<T, W>, waker: W)
    ensures
        ({
            let after = state.after_recv(waker);
            let received = state.recv_result() matches Poll::Ready(Ok(_));
            &&& after.recv_alive == state.recv_alive
            &&& after.send_alive == state.send_alive
            &&& after.value is None
            &&& received ==> {
                &&& after.send_waker is None
                &&& after.recv_waker == state.recv_waker
                &&& state.woken_by_recv() == state.send_waker
            }
            &&& !received ==> {
                &&& after.send_waker == state.send_waker
                &&& state.woken_by_recv() is None
            }
            &&& state.recv_result() is Pending ==> after.recv_waker == Some(waker)
            &&& !(state.recv_result() is Pending) ==> after.recv_waker == state.recv_waker
        }),
{
}

/// A channel starts empty, with both ends there and nobody waiting. Giving up an end changes
/// nothing but that the end is gone.
pub proof fn law_ends_come_and_go<T, W>(state: HandoffState<T, W>)
    ensures
        ({
            let fresh = HandoffState::<T, W>::fresh();
            &&& fresh.value is None && fresh.recv_waker is None && fresh.send_waker is None
            &&& fresh.recv_alive && fresh.send_alive
        }),
        ({
            let after = state.without_sender();
            &&& !after.send_alive && after.recv_alive == state.recv_alive
            &&& after.value == state.value
            &&& after.recv_waker == state.recv_waker && after.send_waker == state.send_waker
        }),
        ({
            let after = state.without_receiver();
            &&& !after.recv_alive && after.send_alive == state.send_alive
            &&& after.value == state.value
            &&& after.recv_waker == state.recv_waker && after.send_waker == state.send_waker
        }),
{
}

/// A send may be polled unless another one waits for a receiver that is there; a receive
/// unless another one waits.
pub proof fn law_when_to_poll<T, W>(state: HandoffState<T, W>)
    ensures
        !state.can_poll_send() <==> state.recv_alive && state.send_waker is Some,
        !state.can_poll_recv() <==> state.recv_waker is Some,
{
}

} // verus!
