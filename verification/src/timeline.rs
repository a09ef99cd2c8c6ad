//! The timeline: pending scheduled events, ordered by time with a strictly
//! increasing insertion sequence number as the tie-break, so that events
//! scheduled at the same instant are applied first-scheduled-first-served.
//!
//! The ordered container is `sorted_vec::SortedVec`, holding `(time,
//! sequence)` pairs whose order is the lexicographic order that std gives
//! pairs of integers; the event payloads live in an ordinary `Vec`, indexed
//! by sequence number.

use vstd::prelude::*;

use crate::events::Event;

verus! {

#[verifier::external_type_specification]
#[verifier::external_body]
#[verifier::reject_recursive_types(T)]
pub struct ExSortedVec<T: Ord>(sorted_vec::SortedVec<T>);

/// The `(time, sequence)` keys that the sorted vector holds, in its order.
pub uninterp spec fn sorted_keys(v: &sorted_vec::SortedVec<(u64, usize)>) -> Seq<(u64, usize)>;

/// Lexicographic order on `(time, sequence)` keys: the order that std
/// derives for pairs of integers, which `SortedVec` sorts by.
pub open spec fn key_le(a: (u64, usize), b: (u64, usize)) -> bool {
    a.0 < b.0 || (a.0 == b.0 && a.1 <= b.1)
}

/// The keys stand in ascending lexicographic order.
pub open spec fn keys_sorted(s: Seq<(u64, usize)>) -> bool {
    forall|i: int, j: int| 0 <= i <= j < s.len() ==> key_le(#[trigger] s[i], #[trigger] s[j])
}

/// Relies on sorted_vec::SortedVec::new: the new vector is empty.
#[verifier::external_body]
fn keys_new() -> (v: sorted_vec::SortedVec<(u64, usize)>)
    ensures
        sorted_keys(&v) == Seq::<(u64, usize)>::empty(),
{
    sorted_vec::SortedVec::new()
}

/// Relies on sorted_vec::SortedVec::insert: the element is inserted at the
/// position a binary search finds, which keeps a sorted vector sorted.
#[verifier::external_body]
fn keys_insert(v: &mut sorted_vec::SortedVec<(u64, usize)>, key: (u64, usize))
    ensures
        exists|k: int|
            0 <= k <= sorted_keys(old(v)).len() && sorted_keys(final(v)) == sorted_keys(
                old(v),
            ).insert(k, key),
        keys_sorted(sorted_keys(old(v))) ==> keys_sorted(sorted_keys(final(v))),
{
    v.insert(key);
}

/// Relies on sorted_vec::SortedVec::remove_index, which removes and returns
/// the element at the given position of the underlying vector.
#[verifier::external_body]
fn keys_remove_first(v: &mut sorted_vec::SortedVec<(u64, usize)>) -> (key: (u64, usize))
    requires
        sorted_keys(old(v)).len() > 0,
    ensures
        key == sorted_keys(old(v))[0],
        sorted_keys(final(v)) == sorted_keys(old(v)).remove(0),
{
    v.remove_index(0)
}

/// Relies on Vec::len, reached through SortedVec's Deref to the underlying
/// vector.
#[verifier::external_body]
fn keys_len(v: &sorted_vec::SortedVec<(u64, usize)>) -> (n: usize)
    ensures
        n == sorted_keys(v).len(),
{
    v.len()
}

/// The priority-ordered collection of not-yet-applied scheduled events.
#[derive(Debug)]
pub struct Timeline {
    keys: sorted_vec::SortedVec<(u64, usize)>,
    events: Vec<(u64, Event)>,
}

impl Timeline {
    /// Every envelope ever inserted, by sequence number: its absolute time
    /// and its event.
    pub closed spec fn inserted(self) -> Seq<(u64, Event)> {
        self.events@
    }

    /// The pending entries in timeline order: each is the `(time, sequence)`
    /// key of one inserted envelope not yet extracted.
    pub closed spec fn pending(self) -> Seq<(u64, usize)> {
        sorted_keys(&self.keys)
    }

    /// The sequence number the next insertion will get.
    pub closed spec fn next_seq(self) -> int {
        self.events@.len() as int
    }

    /// Keys are sorted, distinct in their sequence numbers, and each refers
    /// to an inserted envelope with the matching time.
    pub closed spec fn wf(self) -> bool {
        &&& keys_sorted(self.pending())
        &&& forall|i: int|
            0 <= i < self.pending().len() ==> 0 <= (#[trigger] self.pending()[i]).1
                < self.inserted().len() && self.pending()[i].0 == self.inserted()[self.pending()[i].1 as int].0
        &&& forall|i: int, j: int|
            0 <= i < j < self.pending().len() ==> (#[trigger] self.pending()[i]).1 != (
            #[trigger] self.pending()[j]).1
    }

    /// An empty timeline.
    pub fn new() -> (t: Timeline)
        ensures
            t.wf(),
            t.pending().len() == 0,
            t.inserted().len() == 0,
    {
        Timeline { keys: keys_new(), events: Vec::new() }
    }

    /// How many entries are pending.
    pub fn len(&self) -> (n: usize)
        ensures
            n == self.pending().len(),
    {
        keys_len(&self.keys)
    }

    /// Whether nothing is pending.
    pub fn is_empty(&self) -> (r: bool)
        ensures
            r == (self.pending().len() == 0),
    {
        self.len() == 0
    }

    /// Schedules `ev` at the absolute `time`. The new entry receives the
    /// next sequence number, larger than that of every earlier insertion.
    pub fn insert(&mut self, time: u64, ev: Event)
        requires
            old(self).wf(),
        ensures
            final(self).wf(),
            final(self).inserted() == old(self).inserted().push((time, ev)),
            final(self).next_seq() == old(self).next_seq() + 1,
            final(self).pending().len() == old(self).pending().len() + 1,
            forall|i: int|
                0 <= i < final(self).pending().len() ==> (#[trigger] final(self).pending()[i]
                    == (time, old(self).next_seq() as usize) || old(self).pending().contains(
                    final(self).pending()[i],
                )),
            forall|i: int|
                0 <= i < old(self).pending().len() ==> final(self).pending().contains(
                    #[trigger] old(self).pending()[i],
                ),
    {
        let seq_no: usize = self.events.len();
        self.events.push((time, ev));
        keys_insert(&mut self.keys, (time, seq_no));
        proof {
            let oldp = old(self).pending();
            let newp = self.pending();
            let k = choose|k: int|
                0 <= k <= oldp.len() && newp == oldp.insert(k, (time, seq_no));
            oldp.insert_ensures(k, (time, seq_no));
            assert forall|i: int| 0 <= i < newp.len() implies (#[trigger] newp[i] == (
            time,
            seq_no,
            ) || oldp.contains(newp[i])) by {
                if i < k {
                    assert(newp[i] == oldp[i]);
                } else if i > k {
                    assert(newp[i] == oldp[i - 1]);
                }
            }
            assert forall|i: int| 0 <= i < oldp.len() implies newp.contains(
                #[trigger] oldp[i],
            ) by {
                if i < k {
                    assert(newp[i] == oldp[i]);
                } else {
                    assert(newp[i + 1] == oldp[i]);
                }
            }
            assert forall|i: int, j: int| 0 <= i < j < newp.len() implies (#[trigger] newp[i]).1
                != (#[trigger] newp[j]).1 by {
                assert(newp[i] == (time, seq_no) || oldp.contains(newp[i]));
                assert(newp[j] == (time, seq_no) || oldp.contains(newp[j]));
                if i == k {
                    assert(oldp.contains(newp[j]));
                } else if j == k {
                    assert(oldp.contains(newp[i]));
                } else {
                    let i0 = if i < k {
                        i
                    } else {
                        i - 1
                    };
                    let j0 = if j < k {
                        j
                    } else {
                        j - 1
                    };
                    assert(newp[i] == oldp[i0] && newp[j] == oldp[j0]);
                }
            }
        }
    }

    /// Removes and returns the chronologically earliest pending entry: its
    /// time, and the event it carries. Its time is the minimum over
    /// everything pending.
    pub fn extract_min(&mut self) -> (r: (u64, Event))
        requires
            old(self).wf(),
            old(self).pending().len() > 0,
        ensures
            final(self).wf(),
            final(self).inserted() == old(self).inserted(),
            r.0 == old(self).pending()[0].0,
            (r.0, r.1) == old(self).inserted()[old(self).pending()[0].1 as int],
            final(self).pending() == old(self).pending().remove(0),
            forall|i: int|
                0 <= i < old(self).pending().len() ==> r.0 <= (#[trigger] old(
                    self,
                ).pending()[i]).0,
    {
        let key = keys_remove_first(&mut self.keys);
        let (t, ev) = self.events[key.1];
        proof {
            old(self).pending().remove_ensures(0);
        }
        (t, ev)
    }
}

/// Deterministic tie-breaking: among two pending entries scheduled at the
/// same time, the one inserted into the timeline first (the smaller
/// sequence number) stands earlier in the timeline, so it is extracted and
/// applied first.
pub proof fn lemma_equal_time_fifo(t: Timeline, i: int, j: int)
    requires
        t.wf(),
        0 <= i < j < t.pending().len(),
        t.pending()[i].0 == t.pending()[j].0,
    ensures
        t.pending()[i].1 < t.pending()[j].1,
{
    assert(key_le(t.pending()[i], t.pending()[j]));
}

} // verus!
