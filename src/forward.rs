use vstd::prelude::*;
use crate::watch::HlsQueue;
use crate::Error;

verus! {

/// An item of the stream that a download hands to its consumer.
#[derive(Debug)]
pub enum Event {
    /// Bytes of the stream, in the order received.
    Bytes(Vec<u8>),
    /// The producer has finished normally; nothing follows.
    End,
    /// A failure; a segment failure does not end the stream.
    Error(Error),
}

/// What the segment fetcher does with one element of the segment queue.
#[derive(Debug, Clone)]
pub enum FetchAction {
    /// Fetch this segment URL and stream its bytes.
    Fetch(String),
    /// Emit `End` and stop.
    End,
    /// The stream has ended already: do nothing.
    Stop,
}

/// The fetcher's decision on `item` when it has (`ended`) or has not ended
/// yet: whether it has ended afterwards, and what it does.
pub open spec fn fetch_step(ended: bool, item: HlsQueue) -> (bool, FetchAction) {
    if ended {
        (true, FetchAction::Stop)
    } else {
        match item {
            HlsQueue::Url(u) => (false, FetchAction::Fetch(u)),
            HlsQueue::StreamOver => (true, FetchAction::End),
        }
    }
}

/// The actions the fetcher takes on the queue elements `items`, in order,
/// starting from `ended`.
pub open spec fn fetch_run(ended: bool, items: Seq<HlsQueue>) -> Seq<FetchAction>
    decreases items.len(),
{
    if items.len() == 0 {
        Seq::empty()
    } else {
        let (next, action) = fetch_step(ended, items[0]);
        seq![action] + fetch_run(next, items.drop_first())
    }
}

/// The decisions of the segment fetcher that drains the segment queue.
pub struct Forwarder {
    ended: bool,
}

impl Forwarder {
    /// Whether `End` has been emitted.
    pub closed spec fn has_ended(&self) -> bool {
        self.ended
    }

    /// A fetcher that has not ended.
    pub fn new() -> (r: Forwarder)
        ensures
            !r.has_ended(),
    {
        Forwarder { ended: false }
    }

    /// Decides what to do with the next element of the segment queue.
    pub fn on_item(&mut self, item: HlsQueue) -> (r: FetchAction)
        ensures
            (final(self).has_ended(), r) == fetch_step(old(self).has_ended(), item),
    {
        if self.ended {
            return FetchAction::Stop;
        }
        match item {
            HlsQueue::Url(u) => FetchAction::Fetch(u),
            HlsQueue::StreamOver => {
                self.ended = true;
                FetchAction::End
            },
        }
    }

    /// The event that reports the failure of one segment.
    pub fn segment_failed(&self, error: Error) -> (r: Event)
        ensures
            r == Event::Error(error),
    {
        Event::Error(error)
    }
}

/// The fetcher takes one action per queue element.
pub proof fn lemma_run_len(ended: bool, items: Seq<HlsQueue>)
    ensures
        fetch_run(ended, items).len() == items.len(),
        items.len() > 0 ==> fetch_run(ended, items)[0] == fetch_step(ended, items[0]).1,
        forall|j: int| 0 < j < items.len() ==> #[trigger] fetch_run(ended, items)[j]
            == fetch_run(fetch_step(ended, items[0]).0, items.drop_first())[j - 1],
    decreases items.len(),
{
    if items.len() > 0 {
        lemma_run_len(fetch_step(ended, items[0]).0, items.drop_first());
    }
}

/// A fetcher that starts out not ended emits `End` at most once, and does
/// nothing after it.
pub proof fn law_single_end(items: Seq<HlsQueue>, k: int)
    requires
        0 <= k < items.len(),
        fetch_run(false, items)[k] is End,
    ensures
        forall|j: int| k < j < items.len() ==> #[trigger] fetch_run(false, items)[j] is Stop,
    decreases items.len(),
{
    lemma_run_len(false, items);
    let rest = items.drop_first();
    let next = fetch_step(false, items[0]).0;
    if k > 0 {
        if next {
            lemma_ended_stops(rest);
            assert(fetch_run(false, items)[k] == fetch_run(true, rest)[k - 1]);
        }
        assert(!next);
        lemma_run_len(false, rest);
        law_single_end(rest, k - 1);
        assert forall|j: int| k < j < items.len() implies #[trigger] fetch_run(false, items)[j] is Stop by {
            assert(fetch_run(false, items)[j] == fetch_run(false, rest)[j - 1]);
        }
    } else {
        assert(next);
        lemma_ended_stops(rest);
        assert forall|j: int| k < j < items.len() implies #[trigger] fetch_run(false, items)[j] is Stop by {
            assert(fetch_run(false, items)[j] == fetch_run(true, rest)[j - 1]);
        }
    }
}

/// Once ended, the fetcher only stops.
pub proof fn lemma_ended_stops(items: Seq<HlsQueue>)
    ensures
        fetch_run(true, items).len() == items.len(),
        forall|j: int| 0 <= j < items.len() ==> #[trigger] fetch_run(true, items)[j] is Stop,
    decreases items.len(),
{
    lemma_run_len(true, items);
    if items.len() > 0 {
        lemma_ended_stops(items.drop_first());
        assert forall|j: int| 0 <= j < items.len() implies #[trigger] fetch_run(true, items)[j] is Stop by {
            if j > 0 {
                assert(fetch_run(true, items)[j] == fetch_run(true, items.drop_first())[j - 1]);
            }
        }
    }
}

/// Segments are fetched in queue order: up to the first `StreamOver`, the
/// fetcher's `k`-th action fetches the `k`-th queued URL.
pub proof fn law_fetch_in_queue_order(items: Seq<HlsQueue>, k: int)
    requires
        0 <= k < items.len(),
        forall|j: int| 0 <= j <= k ==> #[trigger] items[j] is Url,
    ensures
        fetch_run(false, items)[k] == FetchAction::Fetch(items[k]->Url_0),
    decreases items.len(),
{
    assert(items[0] is Url);
    lemma_run_len(false, items);
    if k > 0 {
        assert forall|j: int| 0 <= j <= k - 1 implies #[trigger] items.drop_first()[j] is Url by {
            assert(items.drop_first()[j] == items[j + 1]);
        }
        law_fetch_in_queue_order(items.drop_first(), k - 1);
        assert(fetch_run(false, items)[k] == fetch_run(false, items.drop_first())[k - 1]);
    }
}

} // verus!
