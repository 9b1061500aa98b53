use vstd::prelude::*;
use crate::playlist::{texts, trim_text, trimmed, MediaInfo};
use crate::seen::SeenSet;
use crate::urls::{base_url, joined_dot, opt_view, resolve_segment, resolved_url};
use crate::Error;
use vstd::string::*;

verus! {

/// How many consecutive rounds without a new segment a watcher accepts
/// before it declares the stream over.
pub const HLS_MAX_RETRIES: usize = 12;

/// An element of the queue from the watcher to the segment fetcher.
#[derive(Debug, Clone)]
pub enum HlsQueue {
    /// The absolute URL of a segment to fetch.
    Url(String),
    /// No more segments will come.
    StreamOver,
}

/// The URIs of `uris` that are neither in `seen` nor earlier in `uris`, in
/// order.
pub open spec fn fresh_uris(seen: Set<Seq<char>>, uris: Seq<Seq<char>>) -> Seq<Seq<char>>
    decreases uris.len(),
{
    if uris.len() == 0 {
        Seq::empty()
    } else {
        let prev = uris.drop_last();
        let earlier = fresh_uris(seen, prev);
        if seen.contains(uris.last()) || prev.contains(uris.last()) {
            earlier
        } else {
            earlier.push(uris.last())
        }
    }
}

/// `filter` may answer `keep` on a text equal to `uri`.
pub open spec fn kept_by<F: Fn(&str) -> bool>(filter: F, uri: Seq<char>, keep: bool) -> bool {
    exists|s: &str| s@ == uri && #[trigger] call_ensures(filter, (s,), keep)
}

/// The URLs enqueued for the fresh URIs `fresh`, given the filter's answer
/// `keep[j]` for each: the resolved URL of each kept URI that resolves.
pub open spec fn enqueued_urls(base: Seq<char>, fresh: Seq<Seq<char>>, keep: Seq<bool>) -> Seq<Seq<char>>
    decreases fresh.len(),
{
    if fresh.len() == 0 {
        Seq::empty()
    } else {
        let n = fresh.len() - 1;
        let earlier = enqueued_urls(base, fresh.take(n), keep.take(n));
        if keep[n] && resolved_url(base, fresh[n]) is Some {
            earlier.push(resolved_url(base, fresh[n])->Some_0)
        } else {
            earlier
        }
    }
}

/// The fail count after `k` rounds without a new segment, starting from
/// `count`, and whether the stream has ended by then.
pub open spec fn after_idle(count: nat, k: nat) -> (nat, bool)
    decreases k,
{
    if k == 0 {
        (count, false)
    } else {
        let (c, over) = after_idle(count, (k - 1) as nat);
        if over {
            (c, true)
        } else {
            (c + 1, c + 1 > HLS_MAX_RETRIES)
        }
    }
}

/// The trimmed segment URIs of a playlist.
pub open spec fn playlist_uris(p: MediaInfo) -> Seq<Seq<char>> {
    texts(p.segment_uris@).map_values(|u: Seq<char>| trimmed(u))
}

/// What one round of the watcher hands to the segment queue.
#[derive(Debug, Clone)]
pub struct WatchUpdate {
    /// Absolute URLs of new segments, in playlist order.
    pub urls: Vec<String>,
    /// Whether the stream is over after these URLs.
    pub stream_over: bool,
}

/// The decisions of a media-playlist watcher: which segments are new, where
/// they are fetched from, and when the stream is over.
///
/// The caller fetches the playlist, reports each round here, enqueues what
/// comes back and sleeps for the target duration while the stream goes on.
pub struct HlsWatch {
    links: SeenSet,
    base: String,
    fail_counter: usize,
    over: bool,
}

impl HlsWatch {
    /// The segment URIs seen so far.
    pub closed spec fn seen(&self) -> Set<Seq<char>> {
        self.links.view()
    }

    /// The base URL of relative segment URIs.
    pub closed spec fn base(&self) -> Seq<char> {
        self.base@
    }

    /// Consecutive rounds without a new segment.
    pub closed spec fn fail_count(&self) -> nat {
        self.fail_counter as nat
    }

    /// Whether the end of the stream has been handed out.
    pub closed spec fn is_finished(&self) -> bool {
        self.over
    }

    pub closed spec fn wf(&self) -> bool {
        &&& self.fail_counter <= HLS_MAX_RETRIES + 1
        &&& !self.over ==> self.fail_counter <= HLS_MAX_RETRIES
    }

    /// A watcher of the media playlist at `playlist_url`.
    pub fn new(playlist_url: &str) -> (r: Result<HlsWatch, Error>)
        ensures
            match r {
                Ok(w) => {
                    &&& w.wf()
                    &&& joined_dot(playlist_url@) == Some(w.base())
                    &&& w.seen() == Set::<Seq<char>>::empty()
                    &&& w.fail_count() == 0
                    &&& !w.is_finished()
                },
                Err(e) => joined_dot(playlist_url@) is None && e is Parse,
            },
    {
        match base_url(playlist_url) {
            Some(base) => Ok(HlsWatch { links: SeenSet::new(), base, fail_counter: 0, over: false }),
            None => Err(Error::Parse(String::from_str("the playlist URL has no base"))),
        }
    }

    /// Resolves relative segment URIs against `base` from now on.
    pub(crate) fn set_base(&mut self, base: String)
        ensures
            final(self).base() == base@,
            final(self).seen() == old(self).seen(),
            final(self).fail_count() == old(self).fail_count(),
            final(self).is_finished() == old(self).is_finished(),
            final(self).wf() == old(self).wf(),
    {
        self.base = base;
    }

    /// Whether the end of the stream has been handed out.
    pub fn finished(&self) -> (r: bool)
        ensures
            r == self.is_finished(),
    {
        self.over
    }

    /// Counts a round that failed to fetch or parse the playlist. Returns
    /// whether the stream is over now.
    pub fn record_failure(&mut self) -> (r: bool)
        requires
            old(self).wf(),
        ensures
            final(self).wf(),
            final(self).seen() == old(self).seen(),
            final(self).base() == old(self).base(),
            old(self).is_finished() ==> !r && final(self).fail_count() == old(self).fail_count()
                && final(self).is_finished(),
            !old(self).is_finished() ==> {
                &&& (final(self).fail_count(), final(self).is_finished()) == after_idle(
                    old(self).fail_count(),
                    1,
                )
                &&& final(self).fail_count() == old(self).fail_count() + 1
                &&& r == (old(self).fail_count() + 1 > HLS_MAX_RETRIES)
                &&& final(self).is_finished() == r
            },
    {
        if self.over {
            return false;
        }
        proof {
            assert(after_idle(self.fail_counter as nat, 0) == (self.fail_counter as nat, false));
        }
        self.fail_counter = self.fail_counter + 1;
        if self.fail_counter > HLS_MAX_RETRIES {
            self.over = true;
        }
        self.over
    }
    /// Takes one fetched playlist: enqueues the new segments, and ends the
    /// stream on an end list or when the retry budget is spent.
    ///
    /// Each URI is trimmed, added to the seen set, and, where it was not seen
    /// before, offered to `filter`; a kept URI that resolves against the base
    /// URL is handed out. Any new URI resets the fail counter; a playlist
    /// without end list then counts one more round.
    pub fn on_playlist<F: Fn(&str) -> bool>(&mut self, playlist: &MediaInfo, filter: F) -> (r: WatchUpdate)
        requires
            old(self).wf(),
            forall|s: &str| call_requires(filter, (s,)),
        ensures
            final(self).wf(),
            final(self).base() == old(self).base(),
            old(self).is_finished() ==> {
                &&& r.urls@.len() == 0
                &&& !r.stream_over
                &&& final(self).seen() == old(self).seen()
                &&& final(self).fail_count() == old(self).fail_count()
                &&& final(self).is_finished()
            },
            !old(self).is_finished() ==> {
                let uris = playlist_uris(*playlist);
                let fresh = fresh_uris(old(self).seen(), uris);
                let reset = if fresh.len() > 0 { 0 } else { old(self).fail_count() };
                &&& final(self).seen() == old(self).seen().union(uris.to_set())
                &&& exists|keep: Seq<bool>| {
                    &&& keep.len() == fresh.len()
                    &&& forall|j: int| 0 <= j < fresh.len() ==> kept_by(filter, fresh[j], #[trigger] keep[j])
                    &&& texts(r.urls@) == enqueued_urls(old(self).base(), fresh, keep)
                }
                &&& playlist.has_end_list ==> {
                    &&& r.stream_over
                    &&& final(self).is_finished()
                    &&& final(self).fail_count() == reset
                }
                &&& fresh.len() == 0 && !playlist.has_end_list ==> (
                final(self).fail_count(),
                final(self).is_finished(),
                ) == after_idle(old(self).fail_count(), 1)
                &&& !playlist.has_end_list ==> {
                    &&& final(self).fail_count() == reset + 1
                    &&& r.stream_over == (reset + 1 > HLS_MAX_RETRIES)
                    &&& final(self).is_finished() == r.stream_over
                }
            },
    {
        let mut urls: Vec<String> = Vec::new();
        if self.over {
            return WatchUpdate { urls, stream_over: false };
        }
        let ghost seen0 = self.links.view();
        let ghost uris = playlist_uris(*playlist);
        let ghost mut fresh: Seq<Seq<char>> = Seq::empty();
        let ghost mut keep: Seq<bool> = Seq::empty();
        let n = playlist.segment_uris.len();
        let mut found = false;
        let mut i: usize = 0;
        while i < n
            invariant
                n == playlist.segment_uris.len(),
                i <= n,
                uris == playlist_uris(*playlist),
                uris.len() == n,
                forall|s: &str| call_requires(filter, (s,)),
                self.links.view() == seen0.union(uris.take(i as int).to_set()),
                fresh == fresh_uris(seen0, uris.take(i as int)),
                keep.len() == fresh.len(),
                forall|j: int| 0 <= j < fresh.len() ==> kept_by(filter, fresh[j], #[trigger] keep[j]),
                texts(urls@) == enqueued_urls(self.base@, fresh, keep),
                found == (fresh.len() > 0),
                self.base@ == old(self).base@,
                self.fail_counter == old(self).fail_counter,
                self.over == old(self).over,
                !self.over,
            decreases n - i,
        {
            let u = trim_text(playlist.segment_uris[i].as_str());
            proof {
                assert(u@ == uris[i as int]);
                assert(uris.take(i as int + 1).drop_last() =~= uris.take(i as int));
                assert(uris.take(i as int + 1).last() == u@);
                assert(uris.take(i as int).to_set().insert(u@) =~= uris.take(i as int + 1).to_set()) by {
                    assert forall|x: Seq<char>| uris.take(i as int + 1).contains(x)
                        <==> (uris.take(i as int).contains(x) || x == u@) by {
                        if uris.take(i as int + 1).contains(x) {
                            let k = choose|k: int| 0 <= k < i + 1 && #[trigger] uris.take(i as int + 1)[k] == x;
                            if k < i {
                                assert(uris.take(i as int)[k] == x);
                            }
                        }
                        if uris.take(i as int).contains(x) {
                            let k = choose|k: int| 0 <= k < i && #[trigger] uris.take(i as int)[k] == x;
                            assert(uris.take(i as int + 1)[k] == x);
                        }
                        if x == u@ {
                            assert(uris.take(i as int + 1)[i as int] == x);
                        }
                    }
                }
            }
            if self.links.insert(u) {
                found = true;
                let keep_it = filter(u);
                let ghost fresh_prev = fresh;
                let ghost keep_prev = keep;
                proof {
                    fresh = fresh.push(u@);
                    keep = keep.push(keep_it);
                    assert(fresh.take(fresh.len() - 1) =~= fresh_prev);
                    assert(keep.take(keep.len() - 1) =~= keep_prev);
                    assert forall|j: int| 0 <= j < fresh.len() implies kept_by(filter, fresh[j], #[trigger] keep[j]) by {
                        if j < fresh_prev.len() {
                            assert(fresh[j] == fresh_prev[j]);
                            assert(keep[j] == keep_prev[j]);
                        } else {
                            assert(call_ensures(filter, (u,), keep_it));
                        }
                    }
                }
                if keep_it {
                    match resolve_segment(self.base.as_str(), u) {
                        Some(url) => {
                            let ghost urls_prev = urls@;
                            urls.push(url);
                            proof {
                                assert(texts(urls@) =~= texts(urls_prev).push(url@));
                            }
                        },
                        None => {},
                    }
                }
            }
            i = i + 1;
        }
        proof {
            assert(uris.take(n as int) =~= uris);
        }
        if found {
            self.fail_counter = 0;
        }
        if playlist.has_end_list {
            self.over = true;
            return WatchUpdate { urls, stream_over: true };
        }
        proof {
            assert(after_idle(self.fail_counter as nat, 0) == (self.fail_counter as nat, false));
        }
        self.fail_counter = self.fail_counter + 1;
        if self.fail_counter > HLS_MAX_RETRIES {
            self.over = true;
        }
        WatchUpdate { urls, stream_over: self.over }
    }
}

/// A URI is fresh exactly when it is in the playlist and was not seen; the
/// fresh URIs hold no duplicates.
pub proof fn law_fresh_unique(seen: Set<Seq<char>>, uris: Seq<Seq<char>>)
    ensures
        fresh_uris(seen, uris).no_duplicates(),
        forall|x: Seq<char>| #[trigger] fresh_uris(seen, uris).contains(x)
            <==> (uris.contains(x) && !seen.contains(x)),
    decreases uris.len(),
{
    if uris.len() > 0 {
        let prev = uris.drop_last();
        let u = uris.last();
        law_fresh_unique(seen, prev);
        let earlier = fresh_uris(seen, prev);
        assert forall|x: Seq<char>| uris.contains(x) <==> (prev.contains(x) || x == u) by {
            if uris.contains(x) {
                let k = choose|k: int| 0 <= k < uris.len() && #[trigger] uris[k] == x;
                if k < uris.len() - 1 {
                    assert(prev[k] == x);
                }
            }
            if prev.contains(x) {
                let k = choose|k: int| 0 <= k < prev.len() && #[trigger] prev[k] == x;
                assert(uris[k] == x);
            }
        }
        if !(seen.contains(u) || prev.contains(u)) {
            let now = earlier.push(u);
            assert forall|x: Seq<char>| now.contains(x) <==> (earlier.contains(x) || x == u) by {
                if now.contains(x) {
                    let k = choose|k: int| 0 <= k < now.len() && #[trigger] now[k] == x;
                    if k < earlier.len() {
                        assert(earlier[k] == x);
                    }
                }
                if earlier.contains(x) {
                    let k = choose|k: int| 0 <= k < earlier.len() && #[trigger] earlier[k] == x;
                    assert(now[k] == x);
                }
                if x == u {
                    assert(now[now.len() - 1] == x);
                }
            }
            assert forall|a: int, b: int| 0 <= a < now.len() && 0 <= b < now.len() && a != b
                implies now[a] != now[b] by {
                if a < earlier.len() && b < earlier.len() {
                } else if a < earlier.len() {
                    assert(earlier.contains(now[a]));
                } else if b < earlier.len() {
                    assert(earlier.contains(now[b]));
                }
            }
        }
    }
}

/// Two rounds never hand out the same URI: what the second round finds
/// fresh is disjoint from what the first round found fresh.
pub proof fn law_rounds_disjoint(seen: Set<Seq<char>>, first: Seq<Seq<char>>, second: Seq<Seq<char>>)
    ensures
        forall|x: Seq<char>| fresh_uris(seen, first).contains(x) ==> !#[trigger] fresh_uris(
            seen.union(first.to_set()),
            second,
        ).contains(x),
{
    law_fresh_unique(seen, first);
    law_fresh_unique(seen.union(first.to_set()), second);
}

/// Idle rounds count up from the current fail count, and the stream is over
/// once the count passes the retry limit.
pub proof fn lemma_after_idle(count: nat, k: nat)
    requires
        count <= HLS_MAX_RETRIES,
    ensures
        after_idle(count, k).1 == (count + k > HLS_MAX_RETRIES),
        after_idle(count, k).0 == if count + k > HLS_MAX_RETRIES + 1 {
            (HLS_MAX_RETRIES + 1) as nat
        } else {
            count + k
        },
    decreases k,
{
    if k > 0 {
        lemma_after_idle(count, (k - 1) as nat);
    }
}

/// A watcher that has not ended ends after at most one more than the retry
/// limit of consecutive rounds that bring no new segment.
pub proof fn law_idle_rounds_end(count: nat)
    requires
        count <= HLS_MAX_RETRIES,
    ensures
        after_idle(count, (HLS_MAX_RETRIES + 1) as nat).1,
        !after_idle(count, (HLS_MAX_RETRIES - count) as nat).1,
{
    lemma_after_idle(count, (HLS_MAX_RETRIES + 1) as nat);
    lemma_after_idle(count, (HLS_MAX_RETRIES - count) as nat);
}

/// The seen set after a run of rounds whose playlists hold `rounds`,
/// starting from `seen`; a failed round changes nothing.
pub open spec fn run_seen(seen: Set<Seq<char>>, rounds: Seq<Seq<Seq<char>>>) -> Set<Seq<char>>
    decreases rounds.len(),
{
    if rounds.len() == 0 {
        seen
    } else {
        run_seen(seen, rounds.drop_last()).union(rounds.last().to_set())
    }
}

/// The fresh URIs of every round of a run, in the order they are handed out.
pub open spec fn run_fresh(seen: Set<Seq<char>>, rounds: Seq<Seq<Seq<char>>>) -> Seq<Seq<char>>
    decreases rounds.len(),
{
    if rounds.len() == 0 {
        Seq::empty()
    } else {
        run_fresh(seen, rounds.drop_last()) + fresh_uris(
            run_seen(seen, rounds.drop_last()),
            rounds.last(),
        )
    }
}

/// Over a whole run, no URI is handed out twice; each one handed out was in
/// one of the run's playlists and had not been seen before the run, and it is
/// in the seen set afterwards.
pub proof fn law_run_at_most_once(seen: Set<Seq<char>>, rounds: Seq<Seq<Seq<char>>>)
    ensures
        run_fresh(seen, rounds).no_duplicates(),
        forall|x: Seq<char>| #[trigger] run_fresh(seen, rounds).contains(x) ==> {
            &&& !seen.contains(x)
            &&& run_seen(seen, rounds).contains(x)
            &&& exists|k: int| 0 <= k < rounds.len() && #[trigger] rounds[k].contains(x)
        },
        forall|x: Seq<char>| seen.contains(x) ==> #[trigger] run_seen(seen, rounds).contains(x),
    decreases rounds.len(),
{
    if rounds.len() > 0 {
        let prev = rounds.drop_last();
        let last = rounds.last();
        let before = run_seen(seen, prev);
        let a = run_fresh(seen, prev);
        let b = fresh_uris(before, last);
        law_run_at_most_once(seen, prev);
        law_fresh_unique(before, last);
        let all = a + b;
        assert(all == run_fresh(seen, rounds));
        assert forall|x: Seq<char>| #[trigger] all.contains(x) implies {
            &&& !seen.contains(x)
            &&& run_seen(seen, rounds).contains(x)
            &&& exists|k: int| 0 <= k < rounds.len() && #[trigger] rounds[k].contains(x)
        } by {
            let m = choose|m: int| 0 <= m < all.len() && all[m] == x;
            if m < a.len() {
                assert(a[m] == x);
                assert(a.contains(x));
                let k = choose|k: int| 0 <= k < prev.len() && #[trigger] prev[k].contains(x);
                assert(rounds[k] == prev[k]);
            } else {
                assert(b[m - a.len()] == x);
                assert(b.contains(x));
                assert(last.to_set().contains(x));
                assert(rounds[rounds.len() - 1] == last);
            }
        }
        assert forall|i: int, j: int| 0 <= i < all.len() && 0 <= j < all.len() && i != j
            implies all[i] != all[j] by {
            if i < a.len() && j < a.len() {
            } else if i >= a.len() && j >= a.len() {
                assert(b[i - a.len()] != b[j - a.len()]);
            } else if i < a.len() {
                assert(a.contains(all[i]));
                assert(b.contains(all[j]));
            } else {
                assert(a.contains(all[j]));
                assert(b.contains(all[i]));
            }
        }
    }
}

/// Nothing is fresh in a playlist whose URIs have all been seen.
pub proof fn lemma_all_seen(seen: Set<Seq<char>>, uris: Seq<Seq<char>>)
    requires
        forall|x: Seq<char>| uris.contains(x) ==> seen.contains(x),
    ensures
        fresh_uris(seen, uris) == Seq::<Seq<char>>::empty(),
    decreases uris.len(),
{
    if uris.len() > 0 {
        let prev = uris.drop_last();
        assert forall|x: Seq<char>| prev.contains(x) implies seen.contains(x) by {
            let k = choose|k: int| 0 <= k < prev.len() && #[trigger] prev[k] == x;
            assert(uris[k] == x);
        }
        assert(uris.contains(uris.last())) by {
            assert(uris[uris.len() - 1] == uris.last());
        }
        lemma_all_seen(seen, prev);
    }
}

/// Presenting the same playlist twice adds nothing to the queue the second
/// time, whatever the filter answers.
pub proof fn law_same_playlist_twice(
    seen: Set<Seq<char>>,
    uris: Seq<Seq<char>>,
    base: Seq<char>,
    keep: Seq<bool>,
)
    ensures
        fresh_uris(seen.union(uris.to_set()), uris) == Seq::<Seq<char>>::empty(),
        enqueued_urls(base, fresh_uris(seen.union(uris.to_set()), uris), keep)
            == Seq::<Seq<char>>::empty(),
{
    lemma_all_seen(seen.union(uris.to_set()), uris);
}

} // verus!
