use vstd::prelude::*;

verus! {

/// What one non-blocking receive finds in a channel.
pub enum RecvStep<T> {
    /// A value was waiting and has been taken.
    Ready(T),
    /// Nothing is waiting yet: a blocking receiver keeps waiting.
    Empty,
    /// The channel is closed: every receive ends at once.
    Closed,
}

/// The state of a single-slot "mailbox": it holds at most the newest value sent and not yet
/// received. Sending never blocks and overwrites any value still waiting, so a receiver always
/// gets the latest value and never a stale one.
pub struct LatestValueChannel<T> {
    value: Option<T>,
    generation: u64,
    closed: bool,
}

/// The channel as a mathematical value.
pub struct LatestModel<T> {
    pub value: Option<T>,
    pub generation: u64,
    pub closed: bool,
}

/// The generation that follows `g` (it wraps around after `u64::MAX`).
pub open spec fn next_generation(g: u64) -> u64 {
    if g == u64::MAX {
        0
    } else {
        (g + 1) as u64
    }
}

/// The channel after `send(v)`.
pub open spec fn sent<T>(m: LatestModel<T>, v: T) -> LatestModel<T> {
    LatestModel { value: Some(v), generation: next_generation(m.generation), closed: m.closed }
}

/// The channel after sending each of `vs` in turn.
pub open spec fn sent_all<T>(m: LatestModel<T>, vs: Seq<T>) -> LatestModel<T>
    decreases vs.len(),
{
    if vs.len() == 0 {
        m
    } else {
        sent(sent_all(m, vs.drop_last()), vs.last())
    }
}

/// What a non-blocking receive returns.
pub open spec fn recv_result<T>(m: LatestModel<T>) -> RecvStep<T> {
    if m.closed {
        RecvStep::Closed
    } else {
        match m.value {
            Some(v) => RecvStep::Ready(v),
            None => RecvStep::Empty,
        }
    }
}

/// The channel after a non-blocking receive.
pub open spec fn after_recv<T>(m: LatestModel<T>) -> LatestModel<T> {
    if m.closed {
        m
    } else {
        LatestModel { value: None, ..m }
    }
}

impl<T> View for LatestValueChannel<T> {
    type V = LatestModel<T>;

    closed spec fn view(&self) -> LatestModel<T> {
        LatestModel { value: self.value, generation: self.generation, closed: self.closed }
    }
}

impl<T> LatestValueChannel<T> {
    /// An open channel with nothing waiting.
    pub fn new() -> (c: Self)
        ensures
            c@ == (LatestModel::<T> { value: None, generation: 0, closed: false }),
    {
        LatestValueChannel { value: None, generation: 0, closed: false }
    }

    /// Stores `v` as the latest value, dropping any value not yet received.
    pub fn send(&mut self, v: T)
        ensures
            final(self)@ == sent(old(self)@, v),
    {
        self.value = Some(v);
        self.generation = if self.generation == u64::MAX {
            0
        } else {
            self.generation + 1
        };
    }

    /// Takes the waiting value, if the channel is open and one is waiting.
    pub fn try_recv(&mut self) -> (r: RecvStep<T>)
        ensures
            r == recv_result(old(self)@),
            final(self)@ == after_recv(old(self)@),
    {
        if self.closed {
            return RecvStep::Closed;
        }
        match self.value.take() {
            Some(v) => RecvStep::Ready(v),
            None => RecvStep::Empty,
        }
    }

    /// Closes the channel: every receive from now on returns `Closed`.
    pub fn close(&mut self)
        ensures
            final(self)@ == (LatestModel { closed: true, ..old(self)@ }),
    {
        self.closed = true;
    }

    pub fn is_closed(&self) -> (b: bool)
        ensures
            b == self@.closed,
    {
        self.closed
    }

    /// How many values have been sent (modulo 2^64).
    pub fn generation(&self) -> (g: u64)
        ensures
            g == self@.generation,
    {
        self.generation
    }
}

proof fn lemma_sent_all_last<T>(m: LatestModel<T>, vs: Seq<T>)
    requires
        vs.len() > 0,
    ensures
        sent_all(m, vs).value == Some(vs.last()),
        sent_all(m, vs).closed == m.closed,
    decreases vs.len(),
{
    if vs.len() > 1 {
        lemma_sent_all_last(m, vs.drop_last());
    } else {
        assert(sent_all(m, vs.drop_last()) == m);
    }
}

/// After a run of sends with no receive between them, an open channel hands out the last value
/// sent, and the receive after that finds nothing: the earlier values are never observed.
pub proof fn lemma_latest_value_wins<T>(m: LatestModel<T>, vs: Seq<T>)
    requires
        !m.closed,
        vs.len() > 0,
    ensures
        recv_result(sent_all(m, vs)) == RecvStep::Ready(vs.last()),
        recv_result(after_recv(sent_all(m, vs))) == RecvStep::<T>::Empty,
{
    lemma_sent_all_last(m, vs);
}

} // verus!
