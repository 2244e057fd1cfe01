//! The producing side of a stream whose consumer sets the pace.
//!
//! A [`Feed`] holds the items of one response. The task that owns it asks
//! for the next item, hands it to the channel, and tells the feed when the
//! channel could not take it because the consumer has gone. From then on
//! the feed offers nothing: the rest of the response is dropped, which is
//! an ordinary end of the stream and no fault.

use std::collections::VecDeque;
use vstd::prelude::*;

verus! {

/// What a [`Feed`] holds: the items not yet offered, in the order in which
/// they will be offered, and whether the consumer is known to be gone.
pub struct FeedView<T> {
    pub pending: Seq<T>,
    pub closed: bool,
}

impl<T> FeedView<T> {
    /// The item that the feed offers when asked, if any.
    pub open spec fn offer(self) -> Option<T> {
        if self.closed || self.pending.len() == 0 {
            None
        } else {
            Some(self.pending[0])
        }
    }

    /// The feed after it was asked for an item once.
    pub open spec fn advanced(self) -> FeedView<T> {
        if self.offer() is Some {
            FeedView { pending: self.pending.drop_first(), closed: self.closed }
        } else {
            self
        }
    }

    /// The feed after it was asked for an item `n` times.
    pub open spec fn advanced_by(self, n: nat) -> FeedView<T>
        decreases n,
    {
        if n == 0 {
            self
        } else {
            self.advanced().advanced_by((n - 1) as nat)
        }
    }

    /// The feed after the consumer was found gone.
    pub open spec fn shut(self) -> FeedView<T> {
        FeedView { pending: Seq::empty(), closed: true }
    }
}

/// The items of one response on their way to a consumer.
pub struct Feed<T> {
    pending: VecDeque<T>,
    closed: bool,
}

impl<T> View for Feed<T> {
    type V = FeedView<T>;

    closed spec fn view(&self) -> FeedView<T> {
        FeedView { pending: self.pending@, closed: self.closed }
    }
}

impl<T> Feed<T> {
    /// A feed that will offer `items` from first to last.
    pub fn new(items: Vec<T>) -> (feed: Feed<T>)
        ensures
            feed@ == (FeedView { pending: items@, closed: false }),
    {
        let mut items = items;
        let ghost all = items@;
        let mut pending: VecDeque<T> = VecDeque::new();
        while items.len() > 0
            invariant
                items@ + pending@ == all,
            decreases items.len(),
        {
            let ghost before = items@;
            let ghost queued = pending@;
            let item = items.pop().unwrap();
            pending.push_front(item);
            assert(items@ + pending@ =~= before + queued);
        }
        assert(pending@ =~= all);
        Feed { pending, closed: false }
    }

    /// Hands out the next item, or nothing when all were handed out or the
    /// feed was closed.
    pub fn next_item(&mut self) -> (item: Option<T>)
        ensures
            item == old(self)@.offer(),
            final(self)@ == old(self)@.advanced(),
    {
        if self.closed {
            None
        } else {
            let item = self.pending.pop_front();
            assert(final(self)@.pending =~= old(self)@.advanced().pending);
            item
        }
    }

    /// Takes note of how handing an item to the consumer went: an item
    /// that was not delivered closes the feed.
    pub fn record(&mut self, delivered: bool)
        ensures
            final(self)@ == if delivered { old(self)@ } else { old(self)@.shut() },
    {
        if !delivered {
            self.close();
        }
    }

    /// Drops what is left: the consumer has stopped reading.
    pub fn close(&mut self)
        ensures
            final(self)@ == old(self)@.shut(),
    {
        self.pending.clear();
        self.closed = true;
    }

    pub fn is_closed(&self) -> (closed: bool)
        ensures
            closed == self@.closed,
    {
        self.closed
    }

    /// The number of items not yet handed out.
    pub fn remaining(&self) -> (count: usize)
        ensures
            count == self@.pending.len(),
    {
        self.pending.len()
    }
}

/// An open feed hands its items out in their order, one for each time it
/// is asked: asked `n` times, it has the items from the `n`-th on left, and
/// offers the `n`-th next.
pub proof fn lemma_feed_keeps_order<T>(feed: FeedView<T>, n: nat)
    requires
        !feed.closed,
        n <= feed.pending.len(),
    ensures
        feed.advanced_by(n) == (FeedView { pending: feed.pending.skip(n as int), closed: false }),
        n < feed.pending.len() ==> feed.advanced_by(n).offer() == Some(feed.pending[n as int]),
    decreases n,
{
    if n == 0 {
        assert(feed.pending.skip(0) =~= feed.pending);
    } else {
        lemma_feed_keeps_order(feed.advanced(), (n - 1) as nat);
        assert(feed.pending.drop_first().skip(n - 1) =~= feed.pending.skip(n as int));
    }
}

/// Once the consumer is gone, nothing more is offered and nothing is kept,
/// however many items were still to come and however often the feed is
/// asked.
pub proof fn lemma_shut_feed_offers_nothing<T>(feed: FeedView<T>, n: nat)
    ensures
        feed.shut().advanced_by(n) == feed.shut(),
        feed.shut().advanced_by(n).offer() is None,
        feed.shut().pending.len() == 0,
    decreases n,
{
    if n > 0 {
        lemma_shut_feed_offers_nothing(feed, (n - 1) as nat);
    }
}

} // verus!
