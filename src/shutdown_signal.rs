use std::collections::VecDeque;
use vstd::prelude::*;

verus! {

/// Why the streaming session has to end.
#[derive(Clone, Copy, Debug, PartialEq, Eq, Structural)]
pub enum ShutdownSignal {
    /// The client went away; a new client may be awaited.
    ClientDisconnected,
    /// The host backend is shutting down; the server stops for good.
    BackendShutdown,
}

/// What one non-blocking receive on the shutdown bus finds.
#[derive(Clone, Copy, Debug, PartialEq, Eq, Structural)]
pub enum BusRecv {
    Signal(ShutdownSignal),
    /// No signal is waiting and some sender is still alive.
    Empty,
    /// No signal is waiting and every sender is gone.
    Disconnected,
}

/// The state of the multi-producer, single-consumer shutdown bus: the signals not yet received,
/// in send order, and the number of live senders.
pub struct ShutdownBus {
    queue: VecDeque<ShutdownSignal>,
    senders: u64,
}

/// The signal that a receive result stands for: a disconnected bus means the backend is gone.
pub open spec fn spec_effective_signal(r: BusRecv) -> Option<ShutdownSignal> {
    match r {
        BusRecv::Signal(s) => Some(s),
        BusRecv::Empty => None,
        BusRecv::Disconnected => Some(ShutdownSignal::BackendShutdown),
    }
}

/// The signal that a receive result stands for: a disconnected bus counts as `BackendShutdown`.
pub fn effective_signal(r: BusRecv) -> (s: Option<ShutdownSignal>)
    ensures
        s == spec_effective_signal(r),
{
    match r {
        BusRecv::Signal(s) => Some(s),
        BusRecv::Empty => None,
        BusRecv::Disconnected => Some(ShutdownSignal::BackendShutdown),
    }
}

impl ShutdownBus {
    /// The signals waiting, oldest first.
    pub closed spec fn pending(&self) -> Seq<ShutdownSignal> {
        self.queue@
    }

    /// The number of live senders.
    pub closed spec fn live_senders(&self) -> nat {
        self.senders as nat
    }

    /// A bus with nothing waiting and no sender yet.
    pub fn new() -> (b: Self)
        ensures
            b.pending() == Seq::<ShutdownSignal>::empty(),
            b.live_senders() == 0,
    {
        ShutdownBus { queue: VecDeque::new(), senders: 0 }
    }

    pub fn sender_count(&self) -> (n: u64)
        ensures
            n == self.live_senders(),
    {
        self.senders
    }

    /// Registers one more sender.
    pub fn add_sender(&mut self)
        requires
            old(self).live_senders() < u64::MAX,
        ensures
            final(self).pending() == old(self).pending(),
            final(self).live_senders() == old(self).live_senders() + 1,
    {
        self.senders = self.senders + 1;
    }

    /// Unregisters a sender that goes away.
    pub fn drop_sender(&mut self)
        ensures
            final(self).pending() == old(self).pending(),
            final(self).live_senders() == if old(self).live_senders() == 0 {
                0
            } else {
                (old(self).live_senders() - 1) as nat
            },
    {
        if self.senders > 0 {
            self.senders = self.senders - 1;
        }
    }

    /// Queues a signal behind those already waiting. Never blocks.
    pub fn send(&mut self, signal: ShutdownSignal)
        ensures
            final(self).pending() == old(self).pending().push(signal),
            final(self).live_senders() == old(self).live_senders(),
    {
        self.queue.push_back(signal);
    }

    /// Takes the oldest waiting signal; with none waiting, tells whether any sender is left.
    pub fn try_recv(&mut self) -> (r: BusRecv)
        ensures
            final(self).live_senders() == old(self).live_senders(),
            old(self).pending().len() > 0 ==> r == BusRecv::Signal(old(self).pending()[0])
                && final(self).pending() == old(self).pending().drop_first(),
            old(self).pending().len() == 0 ==> final(self).pending() == old(self).pending() && r == (
            if old(self).live_senders() == 0 {
                BusRecv::Disconnected
            } else {
                BusRecv::Empty
            }),
    {
        match self.queue.pop_front() {
            Some(s) => BusRecv::Signal(s),
            None => {
                if self.senders == 0 {
                    BusRecv::Disconnected
                } else {
                    BusRecv::Empty
                }
            },
        }
    }
}

} // verus!
