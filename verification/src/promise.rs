//! One-shot completion handle used for completion signalling on
//! operations that may finish later.
//!
//! A [`Promise`] is either already resolved, waiting on its paired
//! [`Resolver`], or spent. The value can be taken at most once. A take
//! that finds nothing leaves the promise waiting; when the resolver was
//! dropped without resolving, a waiting promise never yields a value.

use vstd::prelude::*;
use std::sync::mpsc::{Receiver, SyncSender, TryRecvError};

verus! {

#[verifier::external_type_specification]
#[verifier::external_body]
#[verifier::reject_recursive_types(T)]
pub struct ExReceiver<T>(Receiver<T>);

#[verifier::external_type_specification]
#[verifier::external_body]
#[verifier::reject_recursive_types(T)]
pub struct ExSyncSender<T>(SyncSender<T>);

/// Outcome of a non-blocking receive.
enum Received<T> {
    Value(T),
    Empty,
    Disconnected,
}

/// Calls `std::sync::mpsc::sync_channel(1)`. Nothing is stated of the
/// pair: whether and when a value sent on the sender reaches the
/// receiver depends on other threads.
#[verifier::external_body]
fn new_channel<T>() -> (SyncSender<T>, Receiver<T>) {
    std::sync::mpsc::sync_channel(1)
}

/// Calls `Receiver::try_recv`, telling its three outcomes apart. What
/// comes back depends on other threads, so nothing is stated of it.
#[verifier::external_body]
fn receive_now<T>(rx: &Receiver<T>) -> Received<T> {
    match rx.try_recv() {
        Ok(v) => Received::Value(v),
        Err(TryRecvError::Empty) => Received::Empty,
        Err(TryRecvError::Disconnected) => Received::Disconnected,
    }
}

/// Calls `Receiver::recv`, blocking until a value arrives (`Some`) or the
/// sender is gone (`None`). What comes back depends on other threads, so
/// nothing is stated of it.
#[verifier::external_body]
fn receive_blocking<T>(rx: Receiver<T>) -> Option<T> {
    rx.recv().ok()
}

/// Calls `SyncSender::send`, discarding the error returned when the
/// receiver is gone. Nothing is stated: the effect is on the receiver's
/// side only.
#[verifier::external_body]
fn send_value<T>(tx: SyncSender<T>, value: T) {
    let _ = tx.send(value);
}

#[verifier::reject_recursive_types(T)]
enum PromiseInner<T> {
    /// Value already available.
    Ready(Option<T>),
    /// Backing channel, kept until a value is taken from it.
    Pending(Receiver<T>),
    /// A value has been delivered and taken.
    Drained,
}

/// Abstract state of a promise.
pub enum PromiseView<T> {
    /// A value is held and will be handed out by the next take.
    Holding(T),
    /// No value has been taken from the paired resolver yet.
    Waiting,
    /// No value will ever be handed out again.
    Spent,
}

/// One-shot completion handle returned by operations that finish
/// asynchronously.
#[verifier::reject_recursive_types(T)]
pub struct Promise<T> {
    inner: PromiseInner<T>,
}

/// Sender half of a [`Promise`] / [`Resolver`] pair.
#[verifier::reject_recursive_types(T)]
pub struct Resolver<T> {
    tx: SyncSender<T>,
}

impl<T> View for Promise<T> {
    type V = PromiseView<T>;

    /// Abstract state of this promise.
    closed spec fn view(&self) -> PromiseView<T> {
        match self.inner {
            PromiseInner::Ready(Some(v)) => PromiseView::Holding(v),
            PromiseInner::Ready(None) => PromiseView::Spent,
            PromiseInner::Pending(_) => PromiseView::Waiting,
            PromiseInner::Drained => PromiseView::Spent,
        }
    }
}

/// What a call of [`Promise::try_take`] may do: from `before` to `after`,
/// handing out `r`.
pub open spec fn try_take_step<T>(before: PromiseView<T>, after: PromiseView<T>, r: Option<T>) -> bool {
    match before {
        PromiseView::Holding(v) => r == Some(v) && after is Spent,
        PromiseView::Spent => r is None && after is Spent,
        PromiseView::Waiting => match r {
            Some(_) => after is Spent,
            None => after is Waiting,
        },
    }
}

/// What a call of [`Promise::is_ready`] may do: from `before` to `after`,
/// answering `r`.
pub open spec fn is_ready_step<T>(before: PromiseView<T>, after: PromiseView<T>, r: bool) -> bool {
    match before {
        PromiseView::Holding(_) => r && after == before,
        PromiseView::Spent => !r && after is Spent,
        PromiseView::Waiting => if r { after is Holding } else { after is Waiting },
    }
}

/// Create a new connected [`Promise`] / [`Resolver`] pair; the promise
/// starts out waiting.
pub fn channel<T>() -> (r: (Promise<T>, Resolver<T>))
    ensures
        r.0.view() is Waiting,
{
    let (tx, rx) = new_channel();
    (Promise { inner: PromiseInner::Pending(rx) }, Resolver { tx })
}

impl<T> Promise<T> {
    /// A promise that is already resolved with `value`.
    pub fn resolved(value: T) -> (r: Promise<T>)
        ensures
            r.view() == PromiseView::Holding(value),
    {
        Promise { inner: PromiseInner::Ready(Some(value)) }
    }

    /// Take the resolved value without blocking: `Some(value)` the first
    /// time the promise is observed resolved, `None` while it waits, once
    /// it has been drained, or when its resolver was dropped.
    pub fn try_take(&mut self) -> (r: Option<T>)
        ensures
            try_take_step(old(self).view(), final(self).view(), r),
    {
        let mut inner = PromiseInner::Drained;
        std::mem::swap(&mut inner, &mut self.inner);
        match inner {
            PromiseInner::Ready(slot) => {
                match slot {
                    Some(v) => Some(v),
                    None => None,
                }
            },
            PromiseInner::Pending(rx) => {
                match receive_now(&rx) {
                    Received::Value(v) => Some(v),
                    Received::Empty | Received::Disconnected => {
                        self.inner = PromiseInner::Pending(rx);
                        None
                    },
                }
            },
            PromiseInner::Drained => None,
        }
    }

    /// Block until the promise resolves: the value once, or `None` when
    /// the resolver was dropped or the promise was already drained.
    pub fn block_take(self) -> (r: Option<T>)
        ensures
            self.view() matches PromiseView::Holding(v) ==> r == Some(v),
            self.view() is Spent ==> r is None,
    {
        match self.inner {
            PromiseInner::Ready(slot) => slot,
            PromiseInner::Pending(rx) => receive_blocking(rx),
            PromiseInner::Drained => None,
        }
    }

    /// `true` when the value can be taken on the next call to
    /// [`Self::try_take`]. A value that has arrived on the channel is
    /// kept in the promise so the next take hands it out.
    pub fn is_ready(&mut self) -> (r: bool)
        ensures
            is_ready_step(old(self).view(), final(self).view(), r),
    {
        let mut inner = PromiseInner::Drained;
        std::mem::swap(&mut inner, &mut self.inner);
        match inner {
            PromiseInner::Ready(slot) => {
                let ready = slot.is_some();
                self.inner = PromiseInner::Ready(slot);
                ready
            },
            PromiseInner::Pending(rx) => {
                match receive_now(&rx) {
                    Received::Value(v) => {
                        self.inner = PromiseInner::Ready(Some(v));
                        true
                    },
                    Received::Empty | Received::Disconnected => {
                        self.inner = PromiseInner::Pending(rx);
                        false
                    },
                }
            },
            PromiseInner::Drained => false,
        }
    }
}

impl<T> Resolver<T> {
    /// Resolve the paired promise with `value`; does nothing when the
    /// promise has already been dropped.
    pub fn resolve(self, value: T) {
        send_value(self.tx, value);
    }
}

/// A value is handed out at most once: after a take that produced a
/// value, every later take produces none.
pub proof fn lemma_value_observed_once<T>(
    a: PromiseView<T>,
    b: PromiseView<T>,
    c: PromiseView<T>,
    v: T,
    r: Option<T>,
)
    requires
        try_take_step(a, b, Some(v)),
        try_take_step(b, c, r),
    ensures
        r is None,
        c is Spent,
{
}

/// A promise resolved with `v` hands out exactly `v` on its first take.
pub proof fn lemma_resolved_hands_out_value<T>(v: T, after: PromiseView<T>, r: Option<T>)
    requires
        try_take_step(PromiseView::Holding(v), after, r),
    ensures
        r == Some(v),
{
}

} // verus!
