//! Ignoring repeated requests for the same link that come in quick succession.
use vstd::prelude::*;

verus! {

/// How long, in nanoseconds, a request for a link suppresses further
/// requests for the same link.
pub const DEBOUNCE_WINDOW_NS: u64 = 500_000_000;

/// Whether a request made at `t` is still recent at `now` (a time before
/// `t` counts as recent).
pub open spec fn is_recent(t: u64, now: u64) -> bool {
    now - t < DEBOUNCE_WINDOW_NS
}

/// Whether a request for `url` at `now` goes ahead, given the requests
/// remembered so far: it does unless a recent one for the same link is remembered.
pub open spec fn admits(seen: Seq<(Seq<char>, u64)>, url: Seq<char>, now: u64) -> bool {
    !exists|i: int| 0 <= i < seen.len() && #[trigger] seen[i].0 == url && is_recent(seen[i].1, now)
}

/// The remembered requests that are still recent at `now`, in order.
pub open spec fn still_recent(seen: Seq<(Seq<char>, u64)>, now: u64) -> Seq<(Seq<char>, u64)> {
    seen.filter(|e: (Seq<char>, u64)| is_recent(e.1, now))
}

/// What is remembered after a request for `url` at `now`: the requests that
/// are still recent, followed by this one when it went ahead.
pub open spec fn after_request(seen: Seq<(Seq<char>, u64)>, url: Seq<char>, now: u64) -> Seq<(Seq<char>, u64)> {
    if admits(seen, url, now) {
        still_recent(seen, now).push((url, now))
    } else {
        still_recent(seen, now)
    }
}

/// Whether no link is remembered twice.
pub open spec fn keys_unique(seen: Seq<(Seq<char>, u64)>) -> bool {
    forall|i: int, j: int| 0 <= i < j < seen.len() ==> #[trigger] seen[i].0 != #[trigger] seen[j].0
}

/// The links requested recently, each with the time of its request; each
/// link is remembered at most once.
#[derive(Debug)]
pub struct RecentRequests {
    entries: Vec<(String, u64)>,
}

impl View for RecentRequests {
    type V = Seq<(Seq<char>, u64)>;

    closed spec fn view(&self) -> Seq<(Seq<char>, u64)> {
        self.entries@.map_values(|e: (String, u64)| (e.0@, e.1))
    }
}

impl RecentRequests {
    #[verifier::type_invariant]
    spec fn each_link_once(self) -> bool {
        keys_unique(self@)
    }

    /// No request remembered.
    pub fn new() -> (r: RecentRequests)
        ensures
            r@ == Seq::<(Seq<char>, u64)>::empty(),
    {
        let r = RecentRequests { entries: Vec::new() };
        assert(r@ =~= Seq::<(Seq<char>, u64)>::empty());
        r
    }

    /// Records a request for `url` at time `now` (in nanoseconds) and tells
    /// whether it goes ahead; requests that are no longer recent are forgotten.
    pub fn record_request(&mut self, url: &str, now: u64) -> (r: bool)
        ensures
            r == admits(old(self)@, url@, now),
            final(self)@ == after_request(old(self)@, url@, now),
            keys_unique(old(self)@),
            keys_unique(final(self)@),
    {
        proof {
            use_type_invariant(&*self);
        }
        let ghost seen = self@;
        let ghost pred = |e: (Seq<char>, u64)| is_recent(e.1, now);
        let mut kept: Vec<(String, u64)> = Vec::new();
        let mut found: bool = false;
        let n = self.entries.len();
        let mut i: usize = 0;
        while i < n
            invariant
                n == self.entries@.len(),
                seen == self@,
                pred == (|e: (Seq<char>, u64)| is_recent(e.1, now)),
                0 <= i <= n,
                kept@.map_values(|e: (String, u64)| (e.0@, e.1)) =~= seen.take(i as int).filter(pred),
                found <==> exists|j: int| 0 <= j < i && #[trigger] seen[j].0 == url@ && is_recent(seen[j].1, now),
            decreases n - i,
        {
            reveal_with_fuel(Seq::<_>::filter, 1);
            assert(seen[i as int].0 == self.entries@[i as int].0@);
            assert(seen[i as int] == (self.entries@[i as int].0@, self.entries@[i as int].1));
            assert(seen.take(i + 1).drop_last() =~= seen.take(i as int));
            assert(seen.take(i + 1).last() == seen[i as int]);
            let t = self.entries[i].1;
            let recent = now < t || now - t < DEBOUNCE_WINDOW_NS;
            assert(recent == is_recent(seen[i as int].1, now));
            assert(seen.take(i + 1).filter(pred) == if pred(seen[i as int]) {
                seen.take(i as int).filter(pred).push(seen[i as int])
            } else {
                seen.take(i as int).filter(pred)
            });
            if recent {
                let key = self.entries[i].0.clone();
                if key == url.to_owned() {
                    found = true;
                }
                let ghost before = kept@;
                kept.push((key, t));
                assert(kept@.map_values(|e: (String, u64)| (e.0@, e.1)) =~= before.map_values(
                    |e: (String, u64)| (e.0@, e.1),
                ).push(seen[i as int]));
            }
            assert(found <==> exists|j: int| 0 <= j < i + 1 && #[trigger] seen[j].0 == url@ && is_recent(seen[j].1, now));
            i = i + 1;
        }
        assert(seen.take(n as int) =~= seen);
        let admitted = !found;
        let ghost filtered = kept@;
        if admitted {
            kept.push((url.to_owned(), now));
            assert(kept@.map_values(|e: (String, u64)| (e.0@, e.1)) =~= filtered.map_values(
                |e: (String, u64)| (e.0@, e.1),
            ).push((url@, now)));
        }
        proof {
            lemma_after_request_unique(seen, url@, now);
            assert(kept@.map_values(|e: (String, u64)| (e.0@, e.1)) =~= after_request(seen, url@, now));
        }
        self.entries = kept;
        admitted
    }
}

/// Forgetting requests that are no longer recent keeps each link at most once.
proof fn lemma_still_recent_unique(seen: Seq<(Seq<char>, u64)>, now: u64)
    requires
        keys_unique(seen),
    ensures
        keys_unique(still_recent(seen, now)),
    decreases seen.len(),
{
    reveal_with_fuel(Seq::<_>::filter, 1);
    if seen.len() > 0 {
        let rest = seen.drop_last();
        let last = seen.last();
        assert forall|i: int, j: int| 0 <= i < j < rest.len() implies #[trigger] rest[i].0 != #[trigger] rest[j].0 by {
            assert(rest[i] == seen[i] && rest[j] == seen[j]);
        }
        lemma_still_recent_unique(rest, now);
        let fr = still_recent(rest, now);
        if is_recent(last.1, now) {
            assert(still_recent(seen, now) == fr.push(last));
            assert forall|k: int| 0 <= k < fr.len() implies #[trigger] fr[k].0 != last.0 by {
                lemma_still_recent_from_seen(rest, now, k);
                let j = choose|j: int| 0 <= j < rest.len() && rest[j] == fr[k];
                assert(seen[j] == rest[j]);
                assert(seen[seen.len() - 1] == last);
            }
            let out = fr.push(last);
            assert forall|i: int, j: int| 0 <= i < j < out.len() implies #[trigger] out[i].0 != #[trigger] out[j].0 by {
                assert(out[i] == fr[i]);
                if j < fr.len() {
                    assert(out[j] == fr[j]);
                } else {
                    assert(out[j] == last);
                }
            }
        } else {
            assert(still_recent(seen, now) == fr);
        }
    }
}

/// A request keeps each link remembered at most once.
proof fn lemma_after_request_unique(seen: Seq<(Seq<char>, u64)>, url: Seq<char>, now: u64)
    requires
        keys_unique(seen),
    ensures
        keys_unique(after_request(seen, url, now)),
{
    lemma_still_recent_unique(seen, now);
    let kept = still_recent(seen, now);
    if admits(seen, url, now) {
        assert forall|k: int| 0 <= k < kept.len() implies #[trigger] kept[k].0 != url by {
            lemma_still_recent_from_seen(seen, now, k);
            let j = choose|j: int| 0 <= j < seen.len() && seen[j] == kept[k];
            assert(seen[j].0 == kept[k].0 && is_recent(seen[j].1, now));
        }
        let out = kept.push((url, now));
        assert forall|i: int, j: int| 0 <= i < j < out.len() implies #[trigger] out[i].0 != #[trigger] out[j].0 by {
            assert(out[i] == kept[i]);
            if j < kept.len() {
                assert(out[j] == kept[j]);
            }
        }
    }
}

/// Every request, from nothing remembered on, leaves each link remembered at most once.
pub proof fn law_each_link_remembered_once(seen: Seq<(Seq<char>, u64)>, url: Seq<char>, now: u64)
    requires
        keys_unique(seen),
    ensures
        keys_unique(after_request(seen, url, now)),
        keys_unique(Seq::<(Seq<char>, u64)>::empty()),
{
    lemma_after_request_unique(seen, url, now);
}

/// A remembered request that is still recent at `t` is kept by any request at `t`.
pub proof fn law_recent_requests_are_kept(seen: Seq<(Seq<char>, u64)>, url: Seq<char>, t: u64, entry: (Seq<char>, u64))
    requires
        seen.contains(entry),
        is_recent(entry.1, t),
    ensures
        after_request(seen, url, t).contains(entry),
{
    let i = choose|i: int| 0 <= i < seen.len() && seen[i] == entry;
    seen.lemma_filter_contains(|e: (Seq<char>, u64)| is_recent(e.1, t), i);
    let kept = still_recent(seen, t);
    if admits(seen, url, t) {
        let k = choose|k: int| 0 <= k < kept.len() && kept[k] == entry;
        assert(kept.push((url, t))[k] == entry);
    }
}

/// A repeat of a request that went ahead at `t0`, made while it is still
/// recent, is ignored and does not extend the window: afterwards the link is
/// held back exactly as long as the request at `t0` is recent.
pub proof fn law_suppressed_repeat_keeps_window(
    seen: Seq<(Seq<char>, u64)>,
    url: Seq<char>,
    t0: u64,
    t1: u64,
    t2: u64,
)
    requires
        keys_unique(seen),
        seen.contains((url, t0)),
        t0 <= t1 <= t2,
        is_recent(t0, t1),
    ensures
        !admits(seen, url, t1),
        admits(after_request(seen, url, t1), url, t2) == !is_recent(t0, t2),
{
    let i0 = choose|i: int| 0 <= i < seen.len() && seen[i] == (url, t0);
    assert(seen[i0].0 == url && is_recent(seen[i0].1, t1));
    let after = after_request(seen, url, t1);
    assert(after == still_recent(seen, t1));
    law_recent_requests_are_kept(seen, url, t1, (url, t0));
    assert forall|k: int| 0 <= k < after.len() && #[trigger] after[k].0 == url implies after[k] == (url, t0) by {
        lemma_still_recent_from_seen(seen, t1, k);
        let j = choose|j: int| 0 <= j < seen.len() && seen[j] == after[k];
        if j != i0 {
            if j < i0 {
                assert(seen[j].0 != seen[i0].0);
            } else {
                assert(seen[i0].0 != seen[j].0);
            }
        }
    }
    if is_recent(t0, t2) {
        let k = choose|k: int| 0 <= k < after.len() && after[k] == (url, t0);
        assert(after[k].0 == url && is_recent(after[k].1, t2));
    }
}

/// A request that went ahead at `t` makes a request for the same link before
/// `t` plus the window be ignored.
pub proof fn law_repeat_within_window_is_ignored(seen: Seq<(Seq<char>, u64)>, url: Seq<char>, t: u64, t2: u64)
    requires
        admits(seen, url, t),
        t <= t2 < t + 500_000_000,
    ensures
        !admits(after_request(seen, url, t), url, t2),
{
    let after = after_request(seen, url, t);
    let last = after.len() - 1;
    assert(after[last] == (url, t));
    assert(after[last].0 == url && is_recent(after[last].1, t2));
}

/// The requests remembered as still recent are among those remembered before.
proof fn lemma_still_recent_from_seen(seen: Seq<(Seq<char>, u64)>, now: u64, i: int)
    requires
        0 <= i < still_recent(seen, now).len(),
    ensures
        seen.contains(still_recent(seen, now)[i]),
        is_recent(still_recent(seen, now)[i].1, now),
{
    let pred = |e: (Seq<char>, u64)| is_recent(e.1, now);
    let kept = seen.filter(pred);
    assert(kept.contains(kept[i]));
    seen.lemma_filter_contains_rev(pred, kept[i]);
    seen.lemma_filter_pred(pred, i);
}

/// A request that went ahead at `t` no longer holds back requests for the
/// same link once the window has passed.
pub proof fn law_repeat_after_window_goes_ahead(seen: Seq<(Seq<char>, u64)>, url: Seq<char>, t: u64, t2: u64)
    requires
        admits(seen, url, t),
        t2 >= t + 500_000_000,
    ensures
        admits(after_request(seen, url, t), url, t2),
{
    let kept = still_recent(seen, t);
    let after = after_request(seen, url, t);
    assert forall|i: int| 0 <= i < after.len() && #[trigger] after[i].0 == url implies !is_recent(after[i].1, t2) by {
        if i < kept.len() {
            assert(after[i] == kept[i]);
            lemma_still_recent_from_seen(seen, t, i);
            let j = choose|j: int| 0 <= j < seen.len() && seen[j] == kept[i];
            assert(seen[j].0 == url && is_recent(seen[j].1, t));
        }
    }
}

/// A request for one link never holds back a later request for another.
pub proof fn law_other_links_are_unaffected(
    seen: Seq<(Seq<char>, u64)>,
    url: Seq<char>,
    other: Seq<char>,
    t: u64,
    t2: u64,
)
    requires
        url != other,
        t <= t2,
    ensures
        admits(after_request(seen, url, t), other, t2) == admits(seen, other, t2),
{
    let pred = |e: (Seq<char>, u64)| is_recent(e.1, t);
    let kept = still_recent(seen, t);
    let after = after_request(seen, url, t);
    if !admits(after, other, t2) {
        let i = choose|i: int| 0 <= i < after.len() && #[trigger] after[i].0 == other && is_recent(after[i].1, t2);
        assert(i < kept.len());
        assert(after[i] == kept[i]);
        lemma_still_recent_from_seen(seen, t, i);
        let j = choose|j: int| 0 <= j < seen.len() && seen[j] == kept[i];
        assert(seen[j].0 == other && is_recent(seen[j].1, t2));
    }
    if !admits(seen, other, t2) {
        let j = choose|j: int| 0 <= j < seen.len() && #[trigger] seen[j].0 == other && is_recent(seen[j].1, t2);
        seen.lemma_filter_contains(pred, j);
        let k = choose|k: int| 0 <= k < kept.len() && kept[k] == seen[j];
        assert(after[k] == kept[k]);
        assert(after[k].0 == other && is_recent(after[k].1, t2));
    }
}

} // verus!
