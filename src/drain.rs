use vstd::prelude::*;

verus! {

/// The larger of two integers.
pub open spec fn max_int(a: int, b: int) -> int {
    if a >= b {
        a
    } else {
        b
    }
}

/// The largest of `d` (0 for none).
pub open spec fn seq_max(d: Seq<u64>) -> int
    decreases d.len(),
{
    if d.len() == 0 {
        0
    } else {
        max_int(seq_max(d.drop_last()), d.last() as int)
    }
}

/// The sum of `d`.
pub open spec fn seq_sum(d: Seq<u64>) -> int
    decreases d.len(),
{
    if d.len() == 0 {
        0
    } else {
        seq_sum(d.drop_last()) + d.last()
    }
}

/// The time, counted from the start of teardown, at which the last of a set of components has
/// been released, when component `i` needs `d[i]` to stop once asked and the components are
/// released one after another, each release waiting for that component to have stopped.
/// With `fan_out`, every component is asked to stop at the start; without it, each is asked
/// only when the release before it has finished.
pub open spec fn drain_end(d: Seq<u64>, fan_out: bool) -> int
    decreases d.len(),
{
    if d.len() == 0 {
        0
    } else {
        let before = drain_end(d.drop_last(), fan_out);
        let asked_at = if fan_out {
            0
        } else {
            before
        };
        max_int(before, asked_at + d.last())
    }
}

/// Asking every component to stop before releasing any makes teardown take as long as the
/// slowest component; asking each one only at its turn makes it take the sum of all of them.
pub proof fn lemma_fan_out_drain_is_max(d: Seq<u64>)
    ensures
        drain_end(d, true) == seq_max(d),
        drain_end(d, false) == seq_sum(d),
        0 <= seq_max(d) <= seq_sum(d),
        drain_end(d, true) <= drain_end(d, false),
    decreases d.len(),
{
    if d.len() > 0 {
        lemma_fan_out_drain_is_max(d.drop_last());
    }
}

/// Replays a teardown schedule (see `drain_end`) and returns the time at which it ends.
pub fn drain_time(stop_delays: &Vec<u64>, fan_out: bool) -> (t: u128)
    requires
        stop_delays@.len() <= u64::MAX,
    ensures
        t == drain_end(stop_delays@, fan_out),
{
    let mut t: u128 = 0;
    let mut i: usize = 0;
    while i < stop_delays.len()
        invariant
            i <= stop_delays@.len(),
            stop_delays@.len() <= u64::MAX,
            t == drain_end(stop_delays@.subrange(0, i as int), fan_out),
            t <= i * (u64::MAX as int),
        decreases stop_delays@.len() - i,
    {
        proof {
            let prefix = stop_delays@.subrange(0, i as int + 1);
            assert(prefix.drop_last() =~= stop_delays@.subrange(0, i as int));
            assert(prefix.last() == stop_delays@[i as int]);
            assert((i as int) * (u64::MAX as int) + u64::MAX as int == (i as int + 1) * (u64::MAX as int))
                by (nonlinear_arith);
            assert((i as int + 1) * (u64::MAX as int) <= (u64::MAX as int) * (u64::MAX as int))
                by (nonlinear_arith)
                requires
                    i as int + 1 <= u64::MAX as int,
            ;
        }
        let d = stop_delays[i] as u128;
        let asked_at: u128 = if fan_out {
            0
        } else {
            t
        };
        let done = asked_at + d;
        if done > t {
            t = done;
        }
        i = i + 1;
    }
    proof {
        assert(stop_delays@.subrange(0, i as int) =~= stop_delays@);
    }
    t
}

} // verus!
