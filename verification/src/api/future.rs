use core::task::Poll;

use vstd::prelude::*;

verus! {

/// `core::task::Poll`, with its two variants.
#[verifier::external_type_specification]
#[verifier::reject_recursive_types(T)]
pub struct ExPoll<T>(Poll<T>);

/// What a pending call and the task that waits for it share: the result,
/// from the moment it arrives until it is taken, and the handle by which the
/// task asked to be woken.
///
/// `complete` and `poll` are the two steps. The caller makes each of them
/// under one lock, and wakes the handle that `complete` gives back.
#[derive(Debug)]
pub struct FutureState<R, W> {
    pub result: Option<R>,
    pub waker: Option<W>,
}

impl<R, W> FutureState<R, W> {
    /// The state after the result `result` arrived.
    pub open spec fn completed(self, result: R) -> FutureState<R, W> {
        FutureState { result: Some(result), waker: None }
    }

    /// The state after a poll that brought `waker`.
    pub open spec fn polled(self, waker: W) -> FutureState<R, W> {
        match self.result {
            Some(_) => FutureState { result: None, waker: self.waker },
            None => FutureState { result: None, waker: Some(waker) },
        }
    }

    /// What a poll answers in this state.
    pub open spec fn answer(self) -> Poll<R> {
        match self.result {
            Some(result) => Poll::Ready(result),
            None => Poll::Pending,
        }
    }

    /// Nothing has arrived and nobody waits.
    pub fn new() -> (made: FutureState<R, W>)
        ensures
            made.result is None,
            made.waker is None,
    {
        FutureState { result: None, waker: None }
    }

    /// Stores the result and hands back the handle to wake, if a poll left one.
    pub fn complete(&mut self, result: R) -> (wake: Option<W>)
        ensures
            *final(self) == old(self).completed(result),
            wake == old(self).waker,
    {
        self.result = Some(result);
        self.waker.take()
    }

    /// Takes the result if it has arrived. If it has not, keeps `waker` in
    /// place of any handle kept before and answers that the call is pending.
    pub fn poll(&mut self, waker: W) -> (answer: Poll<R>)
        ensures
            answer == old(self).answer(),
            *final(self) == old(self).polled(waker),
    {
        match self.result.take() {
            Some(result) => Poll::Ready(result),
            None => {
                self.waker = Some(waker);
                Poll::Pending
            },
        }
    }
}

/// A poll before the result arrives answers "pending" and leaves exactly the
/// handle it brought; the result's arrival hands that handle back to be
/// woken; the next poll answers with the result; and after that the state
/// holds no result, so that it is handed out once only.
pub proof fn lemma_result_is_handed_out_once<R, W>(
    start: FutureState<R, W>,
    first: W,
    result: R,
    second: W,
)
    requires
        start.result is None,
    ensures
        start.answer() == Poll::<R>::Pending,
        start.polled(first).waker == Some(first),
        start.polled(first).result is None,
        start.polled(first).completed(result).answer() == Poll::Ready(result),
        start.polled(first).completed(result).waker is None,
        start.polled(first).completed(result).polled(second).result is None,
        start.polled(first).completed(result).polled(second).answer() == Poll::<R>::Pending,
{
}

/// However often a pending call is polled, it keeps one handle: that of the
/// latest poll.
pub proof fn lemma_pending_keeps_latest_waker<R, W>(start: FutureState<R, W>, first: W, second: W)
    requires
        start.result is None,
    ensures
        start.polled(first).polled(second) == start.polled(second),
        start.polled(first).polled(second).waker == Some(second),
{
}

} // verus!
