use vstd::prelude::*;
use vstd::std_specs::cmp::PartialEqSpec;

use crate::latest_channel::RecvStep;
use crate::timeout_map::{
    first_match, inserted, lemma_sweep_leaves_unexpired, not_before_newest, unexpired, TimedEntry,
    TimeoutMap,
};

verus! {

/// The state of a channel whose values are addressed by key. Senders insert unconditionally;
/// a receiver takes the oldest value under a key, or the oldest value of all. Every send and
/// receive first drops the values older than the channel's timeout, so values that nobody claims
/// do not pile up.
pub struct KeyedChannel<K, V> {
    buffer: TimeoutMap<K, V>,
    closed: bool,
}

/// What a receive by `key` at time `now` returns, and the entries it leaves.
pub open spec fn recv_outcome<K: PartialEq, V>(
    s: Seq<TimedEntry<K, V>>,
    key: K,
    now: u64,
    timeout: u64,
    closed: bool,
) -> (RecvStep<V>, Seq<TimedEntry<K, V>>) {
    let live = unexpired(s, now, timeout);
    if closed {
        (RecvStep::Closed, live)
    } else {
        match first_match(live, key) {
            Some(i) => (RecvStep::Ready(live[i].value), live.remove(i)),
            None => (RecvStep::Empty, live),
        }
    }
}

/// What a receive of the oldest value at time `now` returns, and the entries it leaves.
pub open spec fn recv_any_outcome<K, V>(s: Seq<TimedEntry<K, V>>, now: u64, timeout: u64, closed: bool) -> (
    RecvStep<(K, V)>,
    Seq<TimedEntry<K, V>>,
) {
    let live = unexpired(s, now, timeout);
    if closed {
        (RecvStep::Closed, live)
    } else if live.len() == 0 {
        (RecvStep::Empty, live)
    } else {
        (RecvStep::Ready((live[0].key, live[0].value)), live.drop_first())
    }
}

impl<K, V> KeyedChannel<K, V> {
    /// The buffered entries, oldest first.
    pub closed spec fn entries(&self) -> Seq<TimedEntry<K, V>> {
        self.buffer@
    }

    /// The age (in nanoseconds) past which a value is dropped unclaimed.
    pub closed spec fn spec_timeout(&self) -> u64 {
        self.buffer.spec_timeout()
    }

    pub closed spec fn spec_closed(&self) -> bool {
        self.closed
    }

    pub closed spec fn well_formed(&self) -> bool {
        self.buffer.well_formed()
    }

    /// An open channel with nothing buffered, whose values expire after `timeout` nanoseconds.
    pub fn new(timeout: u64) -> (c: Self)
        ensures
            c.well_formed(),
            c.entries() == Seq::<TimedEntry<K, V>>::empty(),
            c.spec_timeout() == timeout,
            !c.spec_closed(),
    {
        KeyedChannel { buffer: TimeoutMap::new(timeout), closed: false }
    }

    /// Nanoseconds on the channel's clock, never earlier than the newest stamp buffered.
    pub fn now(&self) -> (t: u64)
        ensures
            not_before_newest(self.entries(), t),
    {
        self.buffer.now()
    }

    /// Drops the expired values, then buffers `value` under `key`, received at time `now`.
    pub fn send_at(&mut self, key: K, value: V, now: u64)
        requires
            old(self).well_formed(),
        ensures
            final(self).well_formed(),
            final(self).entries() == inserted(
                unexpired(old(self).entries(), now, old(self).spec_timeout()),
                key,
                value,
                now,
            ),
            final(self).spec_timeout() == old(self).spec_timeout(),
            final(self).spec_closed() == old(self).spec_closed(),
    {
        let ghost before = self.buffer@;
        let dropped = self.buffer.remove_expired_at(now);
        proof {
            lemma_sweep_leaves_unexpired(before, self.buffer@, dropped@, now, self.buffer.spec_timeout());
        }
        self.buffer.insert_at(key, value, now);
    }

    /// Drops the expired values, then buffers `value` under `key` at the current time.
    pub fn send(&mut self, key: K, value: V)
        requires
            old(self).well_formed(),
        ensures
            final(self).well_formed(),
            exists|now: u64|
                not_before_newest(old(self).entries(), now) && final(self).entries() == #[trigger] inserted(
                    unexpired(old(self).entries(), now, old(self).spec_timeout()),
                    key,
                    value,
                    now,
                ),
            final(self).spec_timeout() == old(self).spec_timeout(),
            final(self).spec_closed() == old(self).spec_closed(),
    {
        let now = self.now();
        self.send_at(key, value, now);
    }

    /// Drops the expired values, then takes the oldest value of all.
    pub fn recv_any_at(&mut self, now: u64) -> (r: RecvStep<(K, V)>)
        requires
            old(self).well_formed(),
        ensures
            final(self).well_formed(),
            final(self).spec_timeout() == old(self).spec_timeout(),
            final(self).spec_closed() == old(self).spec_closed(),
            (r, final(self).entries()) == recv_any_outcome(
                old(self).entries(),
                now,
                old(self).spec_timeout(),
                old(self).spec_closed(),
            ),
    {
        let ghost before = self.buffer@;
        let dropped = self.buffer.remove_expired_at(now);
        proof {
            lemma_sweep_leaves_unexpired(before, self.buffer@, dropped@, now, self.buffer.spec_timeout());
        }
        if self.closed {
            return RecvStep::Closed;
        }
        match self.buffer.remove_any() {
            Some(kv) => RecvStep::Ready(kv),
            None => RecvStep::Empty,
        }
    }

    /// Drops the expired values, then takes the oldest value of all, at the current time.
    pub fn recv_any(&mut self) -> (r: RecvStep<(K, V)>)
        requires
            old(self).well_formed(),
        ensures
            final(self).well_formed(),
            final(self).spec_timeout() == old(self).spec_timeout(),
            final(self).spec_closed() == old(self).spec_closed(),
            exists|now: u64|
                not_before_newest(old(self).entries(), now) && (r, final(self).entries())
                    == #[trigger] recv_any_outcome(
                    old(self).entries(),
                    now,
                    old(self).spec_timeout(),
                    old(self).spec_closed(),
                ),
    {
        let now = self.now();
        self.recv_any_at(now)
    }

    /// Closes the channel: every receive from now on returns `Closed`.
    pub fn close(&mut self)
        requires
            old(self).well_formed(),
        ensures
            final(self).well_formed(),
            final(self).entries() == old(self).entries(),
            final(self).spec_timeout() == old(self).spec_timeout(),
            final(self).spec_closed(),
    {
        self.closed = true;
    }

    pub fn is_closed(&self) -> (b: bool)
        ensures
            b == self.spec_closed(),
    {
        self.closed
    }

    pub fn len(&self) -> (n: usize)
        ensures
            n == self.entries().len(),
    {
        self.buffer.len()
    }
}

impl<K: PartialEq, V> KeyedChannel<K, V> {
    /// Drops the expired values, then takes the oldest value under `key`. Values under other keys
    /// do not hold it up.
    pub fn recv_at(&mut self, key: &K, now: u64) -> (r: RecvStep<V>)
        requires
            old(self).well_formed(),
            K::obeys_eq_spec(),
        ensures
            final(self).well_formed(),
            final(self).spec_timeout() == old(self).spec_timeout(),
            final(self).spec_closed() == old(self).spec_closed(),
            (r, final(self).entries()) == recv_outcome(
                old(self).entries(),
                *key,
                now,
                old(self).spec_timeout(),
                old(self).spec_closed(),
            ),
    {
        let ghost before = self.buffer@;
        let dropped = self.buffer.remove_expired_at(now);
        proof {
            lemma_sweep_leaves_unexpired(before, self.buffer@, dropped@, now, self.buffer.spec_timeout());
        }
        if self.closed {
            return RecvStep::Closed;
        }
        match self.buffer.remove(key) {
            Some(v) => RecvStep::Ready(v),
            None => RecvStep::Empty,
        }
    }

    /// Drops the expired values, then takes the oldest value under `key`, at the current time.
    pub fn recv(&mut self, key: &K) -> (r: RecvStep<V>)
        requires
            old(self).well_formed(),
            K::obeys_eq_spec(),
        ensures
            final(self).well_formed(),
            final(self).spec_timeout() == old(self).spec_timeout(),
            final(self).spec_closed() == old(self).spec_closed(),
            exists|now: u64|
                not_before_newest(old(self).entries(), now) && (r, final(self).entries())
                    == #[trigger] recv_outcome(
                    old(self).entries(),
                    *key,
                    now,
                    old(self).spec_timeout(),
                    old(self).spec_closed(),
                ),
    {
        let now = self.now();
        self.recv_at(key, now)
    }
}

} // verus!
