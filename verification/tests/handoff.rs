use deno_raw_http::handoff::{
    new, AsyncHandoff, AsyncHandoffReceiver, AsyncHandoffSender, HandoffError,
};
use deno_raw_http::poll::Poll;
use std::cell::RefCell;
use std::future::Future;
use std::pin::Pin;
use std::rc::Rc;
use std::task::{Context, Waker};
use tokio::task::{spawn_local, LocalSet};

type Shared = Rc<RefCell<AsyncHandoff<u32, Waker>>>;

struct Tx {
    shared: Shared,
    end: Option<AsyncHandoffSender<u32>>,
}

struct Rx {
    shared: Shared,
    end: Option<AsyncHandoffReceiver<u32>>,
}

struct Sending<'a> {
    tx: &'a Tx,
    value: Option<u32>,
}

struct Receiving<'a> {
    rx: &'a Rx,
}

fn wake(woken: Option<Waker>) {
    if let Some(waker) = woken {
        waker.wake();
    }
}

impl<'a> Future for Sending<'a> {
    type Output = Result<(), HandoffError>;

    fn poll(mut self: Pin<&mut Self>, cx: &mut Context<'_>) -> std::task::Poll<Self::Output> {
        let value = self.value.unwrap();
        let mut future = self.tx.end.as_ref().unwrap().send(value);
        let (result, woken) =
            future.poll(&mut *self.tx.shared.borrow_mut(), cx.waker().clone());
        wake(woken);
        match result {
            Poll::Ready(r) => {
                self.value = None;
                std::task::Poll::Ready(r)
            }
            Poll::Pending => std::task::Poll::Pending,
        }
    }
}

impl<'a> Future for Receiving<'a> {
    type Output = Result<u32, HandoffError>;

    fn poll(self: Pin<&mut Self>, cx: &mut Context<'_>) -> std::task::Poll<Self::Output> {
        let mut future = self.rx.end.as_ref().unwrap().recv();
        let (result, woken) =
            future.poll(&mut *self.rx.shared.borrow_mut(), cx.waker().clone());
        wake(woken);
        match result {
            Poll::Ready(r) => std::task::Poll::Ready(r),
            Poll::Pending => std::task::Poll::Pending,
        }
    }
}

impl Tx {
    fn send(&self, value: u32) -> Sending<'_> {
        Sending { tx: self, value: Some(value) }
    }
}

impl Rx {
    fn recv(&self) -> Receiving<'_> {
        Receiving { rx: self }
    }
}

impl Drop for Tx {
    fn drop(&mut self) {
        self.end.take().unwrap().drop(&mut *self.shared.borrow_mut());
    }
}

impl Drop for Rx {
    fn drop(&mut self) {
        self.end.take().unwrap().drop(&mut *self.shared.borrow_mut());
    }
}

fn channel() -> (Tx, Rx) {
    let (handoff, sender, receiver) = new::<u32, Waker>();
    let shared = Rc::new(RefCell::new(handoff));
    (
        Tx { shared: shared.clone(), end: Some(sender) },
        Rx { shared, end: Some(receiver) },
    )
}

fn run_local<F: Future<Output = ()>>(future: F) {
    let runtime = tokio::runtime::Builder::new_current_thread().build().unwrap();
    let local = LocalSet::new();
    runtime.block_on(local.run_until(future));
}

#[test]
fn test_send() {
    run_local(async {
        let (tx, rx) = channel();
        let handle = spawn_local(async move { rx.recv().await });

        tx.send(1).await.unwrap();
        assert_eq!(handle.await.unwrap(), Ok(1));
    });
}

#[test]
fn test_drop() {
    run_local(async {
        let (tx, rx) = channel();
        drop(tx);
        let handle = spawn_local(async move { rx.recv().await });

        assert_eq!(handle.await.unwrap(), Err(HandoffError::Closed));
    });
}

#[test]
fn test_send_twice() {
    run_local(async {
        let (tx, rx) = channel();
        let handle = spawn_local(async move { rx.recv().await.unwrap() + rx.recv().await.unwrap() });

        tx.send(1).await.unwrap();
        tx.send(2).await.unwrap();
        assert_eq!(handle.await.unwrap(), 3);
    });
}

#[test]
fn test_send_then_drop() {
    run_local(async {
        let (tx, rx) = channel();
        let handle = spawn_local(async move {
            assert_eq!(rx.recv().await.unwrap(), 1);
            assert_eq!(rx.recv().await, Err(HandoffError::Closed));
        });

        tx.send(1).await.unwrap();
        drop(tx);
        assert!(handle.await.is_ok())
    });
}

#[test]
fn full_channel_makes_the_sender_wait() {
    let (mut handoff, tx, rx) = new::<u32, &str>();
    let (first, woken) = tx.send(1).poll(&mut handoff, "first");
    assert_eq!(first, Poll::Ready(Ok(())));
    assert_eq!(woken, None);

    let mut second = tx.send(2);
    let (result, woken) = second.poll(&mut handoff, "second");
    assert_eq!(result, Poll::Pending);
    assert_eq!(woken, None);

    let (received, woken) = rx.recv().poll(&mut handoff, "receiver");
    assert_eq!(received, Poll::Ready(Ok(1)));
    assert_eq!(woken, Some("second"));

    let (result, woken) = second.poll(&mut handoff, "second");
    assert_eq!(result, Poll::Ready(Ok(())));
    assert_eq!(woken, None);
    let (received, _) = rx.recv().poll(&mut handoff, "receiver");
    assert_eq!(received, Poll::Ready(Ok(2)));
}

#[test]
fn waiting_receiver_is_woken_by_the_send() {
    let (mut handoff, tx, rx) = new::<u32, &str>();
    let (received, woken) = rx.recv().poll(&mut handoff, "receiver");
    assert_eq!(received, Poll::Pending);
    assert_eq!(woken, None);
    let (sent, woken) = tx.send(7).poll(&mut handoff, "sender");
    assert_eq!(sent, Poll::Ready(Ok(())));
    assert_eq!(woken, Some("receiver"));
    let (received, woken) = rx.recv().poll(&mut handoff, "receiver");
    assert_eq!(received, Poll::Ready(Ok(7)));
    assert_eq!(woken, None);
}

#[test]
fn send_fails_once_the_receiver_is_gone() {
    let (mut handoff, tx, rx) = new::<u32, ()>();
    rx.drop(&mut handoff);
    let (sent, woken) = tx.send(1).poll(&mut handoff, ());
    assert_eq!(sent, Poll::Ready(Err(HandoffError::Closed)));
    assert_eq!(woken, None);
    assert_eq!(HandoffError::Closed.message(), "Channel closed");
}

#[test]
fn held_value_outlives_the_sender() {
    let (mut handoff, tx, rx) = new::<u32, ()>();
    let (sent, _) = tx.send(5).poll(&mut handoff, ());
    assert_eq!(sent, Poll::Ready(Ok(())));
    tx.drop(&mut handoff);
    assert_eq!(rx.recv().poll(&mut handoff, ()).0, Poll::Ready(Ok(5)));
    assert_eq!(rx.recv().poll(&mut handoff, ()).0, Poll::Ready(Err(HandoffError::Closed)));
    assert_eq!(rx.recv().poll(&mut handoff, ()).0, Poll::Ready(Err(HandoffError::Closed)));
}

#[test]
fn channels_say_what_may_be_polled() {
    let (mut handoff, sender, receiver) = new::<u32, u8>();
    assert!(handoff.can_poll_recv_now());
    let mut recv = receiver.recv();
    assert_eq!(recv.poll(&mut handoff, 1), (Poll::Pending, None));
    assert!(!handoff.can_poll_recv_now());
    assert!(handoff.accepts_now());
    let mut first = sender.send(5);
    assert!(!first.is_sent());
    assert_eq!(first.poll(&mut handoff, 2), (Poll::Ready(Ok(())), Some(1)));
    assert!(first.is_sent());
    assert!(handoff.can_poll_recv_now());
    assert!(!handoff.accepts_now());
    assert!(handoff.can_poll_send_now());
    let mut second = sender.send(6);
    assert_eq!(second.poll(&mut handoff, 3), (Poll::Pending, None));
    assert!(!second.is_sent());
    assert!(!handoff.can_poll_send_now());
    receiver.drop(&mut handoff);
    assert!(handoff.can_poll_send_now());
    assert!(!handoff.accepts_now());
}
