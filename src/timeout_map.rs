use std::collections::VecDeque;
use vstd::prelude::*;
use vstd::std_specs::cmp::PartialEqSpec;

use crate::clock::nanos_since;
use vstd::multiset::{group_multiset_axioms, Multiset};
use vstd::seq_lib::{lemma_multiset_commutative, to_multiset_build, to_multiset_contains, to_multiset_remove};

verus! {

/// One buffered value, with its key and the time (in nanoseconds) at which it was inserted.
pub struct TimedEntry<K, V> {
    pub key: K,
    pub value: V,
    pub timestamp: u64,
}

/// An insertion-ordered buffer of keyed values in which every entry remembers when it came in.
/// Entries leave in arrival order, by key (oldest match first), or in bulk once they are older
/// than the buffer's timeout. Times are nanoseconds on one monotonic clock.
pub struct TimeoutMap<K, V> {
    buffer: VecDeque<TimedEntry<K, V>>,
    timeout: u64,
    origin: std::time::Instant,
}

/// Timestamps never decrease from the front of the buffer to its back.
pub open spec fn entries_ordered<K, V>(s: Seq<TimedEntry<K, V>>) -> bool {
    forall|i: int, j: int| 0 <= i <= j < s.len() ==> #[trigger] s[i].timestamp <= #[trigger] s[j].timestamp
}

/// An entry stamped at `timestamp` is older than `timeout` at time `now`.
pub open spec fn is_expired(timestamp: u64, now: u64, timeout: u64) -> bool {
    now > timestamp + timeout
}

/// The stamp that an entry inserted at `now` receives: `now`, raised to the newest stamp already
/// buffered so that the order of stamps follows the order of insertion.
pub open spec fn stamp_after<K, V>(s: Seq<TimedEntry<K, V>>, now: u64) -> u64 {
    if s.len() > 0 && s.last().timestamp > now {
        s.last().timestamp
    } else {
        now
    }
}

/// `now` is no earlier than the newest stamp in `s`.
pub open spec fn not_before_newest<K, V>(s: Seq<TimedEntry<K, V>>, now: u64) -> bool {
    s.len() > 0 ==> now >= s.last().timestamp
}

/// The buffer after inserting `key` and `value` at time `now`.
pub open spec fn inserted<K, V>(s: Seq<TimedEntry<K, V>>, key: K, value: V, now: u64) -> Seq<TimedEntry<K, V>> {
    s.push(TimedEntry { key, value, timestamp: stamp_after(s, now) })
}

/// A buffered key answers a lookup for `key`.
pub open spec fn key_matches<K: PartialEq>(k: K, key: K) -> bool {
    k.eq_spec(&key)
}

/// The position of the oldest entry whose key matches `key`, if any.
pub open spec fn first_match<K: PartialEq, V>(s: Seq<TimedEntry<K, V>>, key: K) -> Option<int>
    decreases s.len(),
{
    if s.len() == 0 {
        None
    } else if key_matches(s[0].key, key) {
        Some(0)
    } else {
        match first_match(s.drop_first(), key) {
            Some(i) => Some(i + 1),
            None => None,
        }
    }
}

/// The values stored under `key`, oldest first.
pub open spec fn values_under<K: PartialEq, V>(s: Seq<TimedEntry<K, V>>, key: K) -> Seq<V>
    decreases s.len(),
{
    if s.len() == 0 {
        Seq::empty()
    } else if key_matches(s[0].key, key) {
        seq![s[0].value] + values_under(s.drop_first(), key)
    } else {
        values_under(s.drop_first(), key)
    }
}

/// `out` and `after` are what a sweep at time `now` leaves of `before`: the expired entries form a
/// prefix whose values come out oldest first, and every entry that stays is unexpired.
pub open spec fn is_sweep<K, V>(
    before: Seq<TimedEntry<K, V>>,
    after: Seq<TimedEntry<K, V>>,
    out: Seq<V>,
    now: u64,
    timeout: u64,
) -> bool {
    &&& out.len() <= before.len()
    &&& after == before.subrange(out.len() as int, before.len() as int)
    &&& forall|i: int| 0 <= i < out.len() ==> #[trigger] out[i] == before[i].value
        && is_expired(before[i].timestamp, now, timeout)
    &&& forall|i: int| 0 <= i < after.len() ==> !is_expired(#[trigger] after[i].timestamp, now, timeout)
}

/// What a sweep at time `now` leaves of `s`: the entries from the first unexpired one on.
pub open spec fn unexpired<K, V>(s: Seq<TimedEntry<K, V>>, now: u64, timeout: u64) -> Seq<TimedEntry<K, V>>
    decreases s.len(),
{
    if s.len() > 0 && is_expired(s[0].timestamp, now, timeout) {
        unexpired(s.drop_first(), now, timeout)
    } else {
        s
    }
}

/// A sweep leaves exactly `unexpired(before, now, timeout)`.
pub proof fn lemma_sweep_leaves_unexpired<K, V>(
    before: Seq<TimedEntry<K, V>>,
    after: Seq<TimedEntry<K, V>>,
    out: Seq<V>,
    now: u64,
    timeout: u64,
)
    requires
        is_sweep(before, after, out, now, timeout),
    ensures
        after == unexpired(before, now, timeout),
    decreases before.len(),
{
    if out.len() > 0 {
        assert(out[0] == before[0].value);
        let b = before.drop_first();
        let o = out.drop_first();
        assert forall|i: int| 0 <= i < o.len() implies #[trigger] o[i] == b[i].value && is_expired(
            b[i].timestamp,
            now,
            timeout,
        ) by {
            assert(o[i] == out[i + 1]);
            assert(b[i] == before[i + 1]);
        }
        assert(after =~= b.subrange(o.len() as int, b.len() as int));
        lemma_sweep_leaves_unexpired(b, after, o, now, timeout);
    } else {
        assert(after =~= before);
        if before.len() > 0 {
            assert(!is_expired(after[0].timestamp, now, timeout));
        }
    }
}

/// A sweep loses nothing and is exact: of the entries it finds, it returns exactly those older
/// than the timeout, oldest first, and every other entry stays, in order.
pub proof fn lemma_sweep_partitions<K, V>(
    before: Seq<TimedEntry<K, V>>,
    after: Seq<TimedEntry<K, V>>,
    out: Seq<V>,
    now: u64,
    timeout: u64,
)
    requires
        is_sweep(before, after, out, now, timeout),
    ensures
        before.len() == out.len() + after.len(),
        forall|i: int|
            0 <= i < before.len() ==> (#[trigger] is_expired(before[i].timestamp, now, timeout) <==> i
                < out.len()),
        forall|i: int| 0 <= i < out.len() ==> #[trigger] out[i] == before[i].value,
        forall|i: int| 0 <= i < after.len() ==> #[trigger] after[i] == before[out.len() + i],
{
    assert forall|i: int| 0 <= i < before.len() implies (#[trigger] is_expired(
        before[i].timestamp,
        now,
        timeout,
    ) <==> i < out.len()) by {
        if i >= out.len() {
            assert(after[i - out.len()] == before[i]);
        } else {
            assert(out[i] == before[i].value);
        }
    }
}

/// The key/value pairs of the buffer, front to back.
pub open spec fn pairs_of<K, V>(s: Seq<TimedEntry<K, V>>) -> Seq<(K, V)> {
    s.map_values(|e: TimedEntry<K, V>| (e.key, e.value))
}

/// Position `i` holds the oldest match for `key`.
proof fn lemma_first_match_at<K: PartialEq, V>(s: Seq<TimedEntry<K, V>>, key: K, i: int)
    requires
        0 <= i < s.len(),
        key_matches(s[i].key, key),
        forall|j: int| 0 <= j < i ==> !key_matches(#[trigger] s[j].key, key),
    ensures
        first_match(s, key) == Some(i),
    decreases s.len(),
{
    if i > 0 {
        let t = s.drop_first();
        assert forall|j: int| 0 <= j < i - 1 implies !key_matches(#[trigger] t[j].key, key) by {
            assert(t[j] == s[j + 1]);
        }
        lemma_first_match_at(t, key, i - 1);
    }
}

/// No position holds a match for `key`.
proof fn lemma_first_match_none<K: PartialEq, V>(s: Seq<TimedEntry<K, V>>, key: K)
    requires
        forall|j: int| 0 <= j < s.len() ==> !key_matches(#[trigger] s[j].key, key),
    ensures
        first_match(s, key) == None::<int>,
    decreases s.len(),
{
    if s.len() > 0 {
        let t = s.drop_first();
        assert forall|j: int| 0 <= j < t.len() implies !key_matches(#[trigger] t[j].key, key) by {
            assert(t[j] == s[j + 1]);
        }
        lemma_first_match_none(t, key);
    }
}

/// The pairs that `remove_any`, called until the buffer is empty, hands out.
pub open spec fn drained_any<K, V>(s: Seq<TimedEntry<K, V>>) -> Seq<(K, V)>
    decreases s.len(),
{
    if s.len() == 0 {
        Seq::empty()
    } else {
        seq![(s[0].key, s[0].value)] + drained_any(s.drop_first())
    }
}

/// The buffer after inserting `items` one after another, item `i` at time `times[i]`.
pub open spec fn inserted_all<K, V>(s: Seq<TimedEntry<K, V>>, items: Seq<(K, V)>, times: Seq<u64>) -> Seq<
    TimedEntry<K, V>,
>
    decreases items.len(),
{
    if items.len() == 0 {
        s
    } else {
        inserted(
            inserted_all(s, items.drop_last(), times.drop_last()),
            items.last().0,
            items.last().1,
            times.last(),
        )
    }
}

proof fn lemma_drained_any_is_pairs<K, V>(s: Seq<TimedEntry<K, V>>)
    ensures
        drained_any(s) == pairs_of(s),
    decreases s.len(),
{
    if s.len() > 0 {
        lemma_drained_any_is_pairs(s.drop_first());
        assert(pairs_of(s) =~= seq![(s[0].key, s[0].value)] + pairs_of(s.drop_first()));
    }
}

proof fn lemma_inserted_all_pairs<K, V>(s: Seq<TimedEntry<K, V>>, items: Seq<(K, V)>, times: Seq<u64>)
    ensures
        pairs_of(inserted_all(s, items, times)) == pairs_of(s) + items,
    decreases items.len(),
{
    if items.len() > 0 {
        let prev = inserted_all(s, items.drop_last(), times.drop_last());
        lemma_inserted_all_pairs(s, items.drop_last(), times.drop_last());
        let next = inserted(prev, items.last().0, items.last().1, times.last());
        assert(pairs_of(next) =~= pairs_of(prev).push((items.last().0, items.last().1)));
        assert(items =~= items.drop_last().push(items.last()));
        assert(pairs_of(s) + items =~= (pairs_of(s) + items.drop_last()).push(items.last()));
    }
}

/// Whatever their keys and insertion times, values inserted into an empty buffer come back out
/// of `remove_any` in the order in which they were inserted.
pub proof fn lemma_remove_any_is_fifo<K, V>(items: Seq<(K, V)>, times: Seq<u64>)
    requires
        times.len() == items.len(),
    ensures
        drained_any(inserted_all(Seq::<TimedEntry<K, V>>::empty(), items, times)) == items,
{
    let s = inserted_all(Seq::<TimedEntry<K, V>>::empty(), items, times);
    lemma_drained_any_is_pairs(s);
    lemma_inserted_all_pairs(Seq::<TimedEntry<K, V>>::empty(), items, times);
    assert(pairs_of(Seq::<TimedEntry<K, V>>::empty()) + items =~= items);
}

/// Removing by key hands out the values stored under that key oldest first: `remove` returns
/// the oldest of them and leaves the others, in order; with none stored it returns nothing.
pub proof fn lemma_remove_oldest_first<K: PartialEq, V>(s: Seq<TimedEntry<K, V>>, key: K)
    ensures
        match first_match(s, key) {
            Some(i) => {
                &&& 0 <= i < s.len()
                &&& values_under(s, key).len() > 0
                &&& s[i].value == values_under(s, key)[0]
                &&& values_under(s.remove(i), key) == values_under(s, key).drop_first()
            },
            None => values_under(s, key).len() == 0,
        },
    decreases s.len(),
{
    if s.len() > 0 {
        let t = s.drop_first();
        lemma_remove_oldest_first(t, key);
        if key_matches(s[0].key, key) {
            assert(s.remove(0) =~= t);
            assert((seq![s[0].value] + values_under(t, key)).drop_first() =~= values_under(t, key));
        } else {
            match first_match(t, key) {
                Some(j) => {
                    let r = s.remove(j + 1);
                    assert(r.drop_first() =~= t.remove(j));
                    assert(r[0] == s[0]);
                },
                None => {},
            }
        }
    }
}

/// Two `remove` calls for one key: the second returns the next-oldest value under that key when
/// there is one, and nothing otherwise.
pub proof fn lemma_second_remove<K: PartialEq, V>(s: Seq<TimedEntry<K, V>>, key: K)
    requires
        first_match(s, key) is Some,
    ensures
        ({
            let t = s.remove(first_match(s, key)->0);
            match first_match(t, key) {
                Some(j) => values_under(s, key).len() >= 2 && t[j].value == values_under(s, key)[1],
                None => values_under(s, key).len() == 1,
            }
        }),
{
    lemma_remove_oldest_first(s, key);
    let t = s.remove(first_match(s, key)->0);
    lemma_remove_oldest_first(t, key);
}

/// One call on a buffer, as a value: a history of calls is a sequence of these.
pub enum BufferOp<K, V> {
    /// `insert_at(key, value, now)`
    Insert(K, V, u64),
    /// `remove_any()`
    RemoveAny,
    /// `remove(&key)`
    Remove(K),
    /// `remove_expired_at(now)`
    RemoveExpired(u64),
}

/// The values held by the entries of `s`, front to back.
pub open spec fn values_of<K, V>(s: Seq<TimedEntry<K, V>>) -> Seq<V> {
    s.map_values(|e: TimedEntry<K, V>| e.value)
}

/// What one call does to a buffer whose timeout is `timeout`: the buffer it leaves, and the values
/// it hands out.
pub open spec fn op_step<K: PartialEq, V>(s: Seq<TimedEntry<K, V>>, op: BufferOp<K, V>, timeout: u64) -> (
    Seq<TimedEntry<K, V>>,
    Seq<V>,
) {
    match op {
        BufferOp::Insert(k, v, now) => (inserted(s, k, v, now), Seq::empty()),
        BufferOp::RemoveAny => if s.len() == 0 {
            (s, Seq::empty())
        } else {
            (s.drop_first(), seq![s[0].value])
        },
        BufferOp::Remove(k) => match first_match(s, k) {
            Some(i) => (s.remove(i), seq![s[i].value]),
            None => (s, Seq::empty()),
        },
        BufferOp::RemoveExpired(now) => {
            let after = unexpired(s, now, timeout);
            (after, values_of(s.subrange(0, s.len() - after.len())))
        },
    }
}

/// The values that a history of calls inserts, in order.
pub open spec fn values_inserted<K, V>(ops: Seq<BufferOp<K, V>>) -> Seq<V>
    decreases ops.len(),
{
    if ops.len() == 0 {
        Seq::empty()
    } else {
        let before = values_inserted(ops.drop_last());
        match ops.last() {
            BufferOp::Insert(_, v, _) => before.push(v),
            _ => before,
        }
    }
}

/// The buffer that a history of calls leaves of `s`, and every value that its calls handed out.
pub open spec fn run_ops<K: PartialEq, V>(s: Seq<TimedEntry<K, V>>, ops: Seq<BufferOp<K, V>>, timeout: u64) -> (
    Seq<TimedEntry<K, V>>,
    Seq<V>,
)
    decreases ops.len(),
{
    if ops.len() == 0 {
        (s, Seq::empty())
    } else {
        let (b, out) = run_ops(s, ops.drop_last(), timeout);
        let (b2, o) = op_step(b, ops.last(), timeout);
        (b2, out + o)
    }
}

proof fn lemma_empty_to_multiset<V>()
    ensures
        Seq::<V>::empty().to_multiset() == Multiset::<V>::empty(),
{
    broadcast use group_multiset_axioms;

    let e = Seq::<V>::empty();
    assert forall|a: V| e.to_multiset().count(a) == Multiset::<V>::empty().count(a) by {
        to_multiset_contains(e, a);
    }
    assert(e.to_multiset() =~= Multiset::<V>::empty());
}

/// A sweep leaves a suffix of the buffer.
proof fn lemma_unexpired_is_suffix<K, V>(s: Seq<TimedEntry<K, V>>, now: u64, timeout: u64)
    ensures
        unexpired(s, now, timeout).len() <= s.len(),
        unexpired(s, now, timeout) == s.subrange(
            s.len() - unexpired(s, now, timeout).len(),
            s.len() as int,
        ),
    decreases s.len(),
{
    if s.len() > 0 && is_expired(s[0].timestamp, now, timeout) {
        let t = s.drop_first();
        lemma_unexpired_is_suffix(t, now, timeout);
        let u = unexpired(t, now, timeout);
        assert(t.subrange(t.len() - u.len(), t.len() as int) =~= s.subrange(
            s.len() - u.len(),
            s.len() as int,
        ));
    } else {
        assert(s.subrange(0, s.len() as int) =~= s);
    }
}

/// A `remove_expired_at` call meets `op_step`: what a sweep leaves and returns is the step's.
pub proof fn lemma_sweep_is_step<K: PartialEq, V>(
    before: Seq<TimedEntry<K, V>>,
    after: Seq<TimedEntry<K, V>>,
    out: Seq<V>,
    now: u64,
    timeout: u64,
)
    requires
        is_sweep(before, after, out, now, timeout),
    ensures
        op_step(before, BufferOp::RemoveExpired(now), timeout) == (after, out),
{
    lemma_sweep_leaves_unexpired(before, after, out, now, timeout);
    let p = values_of(before.subrange(0, before.len() - after.len()));
    assert(p =~= out);
}

/// One call keeps every value: what the buffer held plus what the call inserted is, as a
/// multiset, what the call handed out plus what the buffer now holds.
proof fn lemma_step_conserves<K: PartialEq, V>(s: Seq<TimedEntry<K, V>>, op: BufferOp<K, V>, timeout: u64)
    ensures
        ({
            let (s2, o) = op_step(s, op, timeout);
            let ins = match op {
                BufferOp::Insert(_, v, _) => seq![v],
                _ => Seq::<V>::empty(),
            };
            (values_of(s) + ins).to_multiset() == (o + values_of(s2)).to_multiset()
        }),
{
    broadcast use group_multiset_axioms;

    let (s2, o) = op_step(s, op, timeout);
    match op {
        BufferOp::Insert(_, v, _) => {
            assert(values_of(s) + seq![v] =~= o + values_of(s2));
        },
        BufferOp::RemoveAny => {
            if s.len() > 0 {
                assert(values_of(s) + Seq::<V>::empty() =~= o + values_of(s2));
            } else {
                assert(values_of(s) + Seq::<V>::empty() =~= o + values_of(s2));
            }
        },
        BufferOp::Remove(k) => {
            match first_match(s, k) {
                Some(i) => {
                    lemma_remove_oldest_first(s, k);
                    let r = values_of(s);
                    assert(values_of(s2) =~= r.remove(i));
                    assert(r + Seq::<V>::empty() =~= r);
                    to_multiset_remove(r, i);
                    to_multiset_contains(r, r[i]);
                    lemma_multiset_commutative(seq![r[i]], r.remove(i));
                    to_multiset_build(Seq::<V>::empty(), r[i]);
                    assert(seq![r[i]] =~= Seq::<V>::empty().push(r[i]));
                    lemma_empty_to_multiset::<V>();
                    assert((o + values_of(s2)).to_multiset() =~= r.to_multiset());
                },
                None => {
                    assert(values_of(s) + Seq::<V>::empty() =~= o + values_of(s2));
                },
            }
        },
        BufferOp::RemoveExpired(now) => {
            lemma_unexpired_is_suffix(s, now, timeout);
            let k = s.len() - s2.len();
            assert(s.subrange(0, k) + s.subrange(k, s.len() as int) =~= s);
            assert(values_of(s) + Seq::<V>::empty() =~= o + values_of(s2));
        },
    }
}

/// No value is lost and none is handed out twice: whatever history of inserts, removals by key,
/// removals of the oldest and expiry sweeps runs on an empty buffer, the values it inserted are,
/// as a multiset, exactly those its calls handed out plus those still buffered.
pub proof fn lemma_history_conserves_values<K: PartialEq, V>(ops: Seq<BufferOp<K, V>>, timeout: u64)
    ensures
        ({
            let (b, out) = run_ops(Seq::<TimedEntry<K, V>>::empty(), ops, timeout);
            values_inserted(ops).to_multiset() == out.to_multiset().add(values_of(b).to_multiset())
        }),
    decreases ops.len(),
{
    broadcast use group_multiset_axioms;

    let e = Seq::<TimedEntry<K, V>>::empty();
    if ops.len() == 0 {
        assert(values_of(e) =~= Seq::<V>::empty());
        lemma_empty_to_multiset::<V>();
    } else {
        let prev = ops.drop_last();
        lemma_history_conserves_values(prev, timeout);
        let (b, out) = run_ops(e, prev, timeout);
        let (b2, o) = op_step(b, ops.last(), timeout);
        lemma_step_conserves(b, ops.last(), timeout);
        let ins = match ops.last() {
            BufferOp::Insert(_, v, _) => seq![v],
            _ => Seq::<V>::empty(),
        };
        assert(values_inserted(ops) =~= values_inserted(prev) + ins);
        lemma_multiset_commutative(values_inserted(prev), ins);
        lemma_multiset_commutative(values_of(b), ins);
        lemma_multiset_commutative(o, values_of(b2));
        lemma_multiset_commutative(out, o);
        assert(values_inserted(ops).to_multiset() =~= (out + o).to_multiset().add(values_of(b2).to_multiset()));
    }
}

impl<K, V> View for TimeoutMap<K, V> {
    type V = Seq<TimedEntry<K, V>>;

    closed spec fn view(&self) -> Seq<TimedEntry<K, V>> {
        self.buffer@
    }
}

impl<K, V> TimeoutMap<K, V> {
    /// The age (in nanoseconds) past which an entry is swept out.
    pub closed spec fn spec_timeout(&self) -> u64 {
        self.timeout
    }

    /// The buffer's stamps follow the order of insertion.
    pub open spec fn well_formed(&self) -> bool {
        entries_ordered(self@)
    }

    /// An empty buffer whose entries expire once older than `timeout` nanoseconds.
    pub fn new(timeout: u64) -> (m: Self)
        ensures
            m@ == Seq::<TimedEntry<K, V>>::empty(),
            m.spec_timeout() == timeout,
            m.well_formed(),
    {
        TimeoutMap { buffer: VecDeque::new(), timeout, origin: std::time::Instant::now() }
    }

    pub fn timeout(&self) -> (t: u64)
        ensures
            t == self.spec_timeout(),
    {
        self.timeout
    }

    pub fn len(&self) -> (n: usize)
        ensures
            n == self@.len(),
    {
        self.buffer.len()
    }

    /// Nanoseconds on this buffer's clock.
    /// Never earlier than the newest stamp buffered: the clock does not run backwards.
    pub fn now(&self) -> (t: u64)
        ensures
            not_before_newest(self@, t),
    {
        let t = nanos_since(&self.origin);
        let n = self.buffer.len();
        if n > 0 && self.buffer[n - 1].timestamp > t {
            self.buffer[n - 1].timestamp
        } else {
            t
        }
    }

    /// Appends an entry stamped at `now` (or at the newest stamp already buffered, if later).
    pub fn insert_at(&mut self, key: K, value: V, now: u64)
        requires
            old(self).well_formed(),
        ensures
            final(self).well_formed(),
            final(self)@ == inserted(old(self)@, key, value, now),
            final(self).spec_timeout() == old(self).spec_timeout(),
    {
        let n = self.buffer.len();
        let mut stamp = now;
        if n > 0 {
            let last = self.buffer[n - 1].timestamp;
            if last > now {
                stamp = last;
            }
        }
        self.buffer.push_back(TimedEntry { key, value, timestamp: stamp });
        proof {
            let s = self@;
            assert forall|i: int, j: int| 0 <= i <= j < s.len() implies #[trigger] s[i].timestamp
                <= #[trigger] s[j].timestamp by {
                if j == s.len() - 1 && i < j {
                    assert(s[i] == old(self)@[i]);
                    assert(old(self)@[i].timestamp <= old(self)@[n - 1].timestamp);
                }
            }
        }
    }

    /// Appends an entry stamped with the current time.
    pub fn insert(&mut self, key: K, value: V)
        requires
            old(self).well_formed(),
        ensures
            final(self).well_formed(),
            final(self).spec_timeout() == old(self).spec_timeout(),
            exists|now: u64|
                not_before_newest(old(self)@, now) && final(self)@ == #[trigger] inserted(
                    old(self)@,
                    key,
                    value,
                    now,
                ),
    {
        let now = self.now();
        self.insert_at(key, value, now);
    }

    /// Removes the oldest entry, whatever its key.
    pub fn remove_any(&mut self) -> (r: Option<(K, V)>)
        requires
            old(self).well_formed(),
        ensures
            final(self).well_formed(),
            final(self).spec_timeout() == old(self).spec_timeout(),
            old(self)@.len() == 0 ==> r.is_none() && final(self)@ == old(self)@,
            old(self)@.len() > 0 ==> r == Some((old(self)@[0].key, old(self)@[0].value))
                && final(self)@ == old(self)@.drop_first(),
    {
        match self.buffer.pop_front() {
            Some(entry) => {
                proof {
                    let s = self@;
                    assert forall|i: int, j: int| 0 <= i <= j < s.len() implies #[trigger] s[i].timestamp
                        <= #[trigger] s[j].timestamp by {
                        assert(s[i] == old(self)@[i + 1]);
                        assert(s[j] == old(self)@[j + 1]);
                    }
                }
                Some((entry.key, entry.value))
            },
            None => None,
        }
    }

    /// Removes every entry older than the timeout at time `now` and returns their values,
    /// oldest first. The entries that stay are exactly those that are not expired.
    pub fn remove_expired_at(&mut self, now: u64) -> (r: Vec<V>)
        requires
            old(self).well_formed(),
        ensures
            final(self).well_formed(),
            final(self).spec_timeout() == old(self).spec_timeout(),
            is_sweep(old(self)@, final(self)@, r@, now, old(self).spec_timeout()),
    {
        let ghost s0 = self@;
        let timeout = self.timeout;
        let mut out: Vec<V> = Vec::new();
        loop
            invariant
                self.timeout == timeout,
                timeout == old(self).spec_timeout(),
                s0 == old(self)@,
                entries_ordered(s0),
                out@.len() <= s0.len(),
                self@ == s0.subrange(out@.len() as int, s0.len() as int),
                forall|i: int| 0 <= i < out@.len() ==> #[trigger] out@[i] == s0[i].value
                    && is_expired(s0[i].timestamp, now, timeout),
            ensures
                self.timeout == timeout,
                is_sweep(s0, self@, out@, now, timeout),
            decreases self@.len(),
        {
            if self.buffer.len() == 0 {
                break;
            }
            let front = self.buffer[0].timestamp;
            if now as u128 <= front as u128 + timeout as u128 {
                proof {
                    let k = out@.len() as int;
                    assert forall|i: int| 0 <= i < self@.len() implies !is_expired(
                        #[trigger] self@[i].timestamp, now, timeout) by {
                        assert(self@[i] == s0[k + i]);
                        assert(self@[0] == s0[k]);
                        assert(s0[k].timestamp <= s0[k + i].timestamp);
                    }
                }
                break;
            }
            match self.buffer.pop_front() {
                Some(entry) => {
                    out.push(entry.value);
                },
                None => {},
            }
        }
        proof {
            let s = self@;
            let k = out@.len() as int;
            assert forall|i: int, j: int| 0 <= i <= j < s.len() implies #[trigger] s[i].timestamp
                <= #[trigger] s[j].timestamp by {
                assert(s[i] == s0[k + i]);
                assert(s[j] == s0[k + j]);
            }
        }
        out
    }

    /// Removes every entry older than the timeout at the current time and returns their values,
    /// oldest first.
    pub fn remove_expired(&mut self) -> (r: Vec<V>)
        requires
            old(self).well_formed(),
        ensures
            final(self).well_formed(),
            final(self).spec_timeout() == old(self).spec_timeout(),
            exists|now: u64|
                not_before_newest(old(self)@, now) && #[trigger] is_sweep(
                    old(self)@,
                    final(self)@,
                    r@,
                    now,
                    old(self).spec_timeout(),
                ),
    {
        let now = self.now();
        self.remove_expired_at(now)
    }
}

impl<K: PartialEq, V> TimeoutMap<K, V> {
    /// Removes the oldest entry whose key matches `key` and returns its value.
    pub fn remove(&mut self, key: &K) -> (r: Option<V>)
        requires
            old(self).well_formed(),
            K::obeys_eq_spec(),
        ensures
            final(self).well_formed(),
            final(self).spec_timeout() == old(self).spec_timeout(),
            match first_match(old(self)@, *key) {
                Some(i) => r == Some(old(self)@[i].value) && final(self)@ == old(self)@.remove(i),
                None => r.is_none() && final(self)@ == old(self)@,
            },
    {
        let n = self.buffer.len();
        let mut i: usize = 0;
        while i < n
            invariant
                n == self@.len(),
                self@ == old(self)@,
                self.timeout == old(self).timeout,
                entries_ordered(old(self)@),
                i <= n,
                K::obeys_eq_spec(),
                forall|j: int| 0 <= j < i ==> !key_matches(#[trigger] self@[j].key, *key),
            decreases n - i,
        {
            if self.buffer[i].key.eq(key) {
                proof {
                    lemma_first_match_at(old(self)@, *key, i as int);
                }
                let ghost s0 = self@;
                match self.buffer.remove(i) {
                    Some(entry) => {
                        proof {
                            let s = self@;
                            assert forall|a: int, b: int| 0 <= a <= b < s.len() implies #[trigger] s[a].timestamp
                                <= #[trigger] s[b].timestamp by {
                                let a0 = if a < i { a } else { a + 1 };
                                let b0 = if b < i { b } else { b + 1 };
                                assert(s[a] == s0[a0]);
                                assert(s[b] == s0[b0]);
                                assert(old(self)@[a0].timestamp <= old(self)@[b0].timestamp);
                            }
                        }
                        return Some(entry.value);
                    },
                    None => {
                        return None;
                    },
                }
            }
            i = i + 1;
        }
        proof {
            lemma_first_match_none(old(self)@, *key);
        }
        None
    }
}

} // verus!
