//! The bounded window of temperature samples, newest first.

use std::collections::VecDeque;
use vstd::prelude::*;

verus! {

/// The highest value of a sequence; `0` for an empty one.
pub open spec fn peak(s: Seq<usize>) -> usize
    decreases s.len(),
{
    if s.len() == 0 {
        0
    } else if s.last() > peak(s.drop_last()) {
        s.last()
    } else {
        peak(s.drop_last())
    }
}

/// The window after every reading, in turn, went to its front.
pub open spec fn pushed(history: Seq<usize>, temps: Seq<usize>) -> Seq<usize> {
    temps.reverse() + history
}

/// The window after one cycle: the readings pushed, then the oldest samples
/// dropped until no more than `cap` are left.
pub open spec fn sampled(history: Seq<usize>, temps: Seq<usize>, cap: usize) -> Seq<usize> {
    let all = pushed(history, temps);
    if all.len() > cap {
        all.take(cap as int)
    } else {
        all
    }
}

/// The number of samples a window keeps: `queue_size` for each input, and as
/// many for a device without inputs; `usize::MAX` where that is more.
pub open spec fn capacity_for(queue_size: usize, inputs: nat) -> usize {
    let per = if inputs > 0 {
        inputs
    } else {
        1
    };
    if queue_size * per > usize::MAX {
        usize::MAX
    } else {
        (queue_size * per) as usize
    }
}

/// The peak is an upper bound of the sequence and, unless that is empty, one
/// of its values.
pub proof fn law_peak_is_maximum(s: Seq<usize>)
    ensures
        forall|i: int| 0 <= i < s.len() ==> #[trigger] s[i] <= peak(s),
        s.len() == 0 ==> peak(s) == 0,
        s.len() > 0 ==> exists|i: int| 0 <= i < s.len() && #[trigger] s[i] == peak(s),
    decreases s.len(),
{
    if s.len() > 0 {
        let front = s.drop_last();
        law_peak_is_maximum(front);
        assert forall|i: int| 0 <= i < s.len() implies #[trigger] s[i] <= peak(s) by {
            if i < front.len() {
                assert(front[i] == s[i]);
            }
        }
        if s.last() > peak(front) || front.len() == 0 {
            assert(s[s.len() - 1] == peak(s));
        } else {
            let k = choose|k: int| 0 <= k < front.len() && #[trigger] front[k] == peak(front);
            assert(s[k] == peak(s));
        }
    }
}

/// The peak is `0` exactly where every value is `0`.
pub proof fn law_peak_zero(s: Seq<usize>)
    ensures
        peak(s) == 0 <==> forall|i: int| 0 <= i < s.len() ==> #[trigger] s[i] == 0,
{
    law_peak_is_maximum(s);
}

/// A window never holds more samples than its capacity after a cycle, and the
/// capacity is never more than `queue_size` for each input.
pub proof fn law_window_bounded(
    history: Seq<usize>,
    temps: Seq<usize>,
    queue_size: usize,
    inputs: nat,
)
    ensures
        sampled(history, temps, capacity_for(queue_size, inputs)).len() <= capacity_for(
            queue_size,
            inputs,
        ),
        capacity_for(queue_size, inputs) <= queue_size * (if inputs > 1 {
            inputs
        } else {
            1
        }),
{
}

/// The number of samples a window keeps for `inputs` inputs.
pub fn capacity(queue_size: usize, inputs: usize) -> (r: usize)
    ensures
        r == capacity_for(queue_size, inputs as nat),
{
    let per: usize = if inputs > 0 {
        inputs
    } else {
        1
    };
    match queue_size.checked_mul(per) {
        Some(c) => c,
        None => usize::MAX,
    }
}

/// The highest of the readings of one cycle.
pub fn highest(temps: &Vec<usize>) -> (r: usize)
    ensures
        r == peak(temps@),
{
    let mut tmax: usize = 0;
    let mut i: usize = 0;
    while i < temps.len()
        invariant
            i <= temps.len(),
            tmax == peak(temps@.take(i as int)),
        decreases temps.len() - i,
    {
        assert(temps@.take(i + 1).drop_last() =~= temps@.take(i as int));
        if tmax < temps[i] {
            tmax = temps[i];
        }
        i += 1;
    }
    assert(temps@.take(temps.len() as int) =~= temps@);
    tmax
}

/// The highest sample of the window.
pub fn window_highest(log: &VecDeque<usize>) -> (r: usize)
    ensures
        r == peak(log@),
{
    let mut lmax: usize = 0;
    let mut i: usize = 0;
    while i < log.len()
        invariant
            i <= log.len(),
            lmax == peak(log@.take(i as int)),
        decreases log.len() - i,
    {
        assert(log@.take(i + 1).drop_last() =~= log@.take(i as int));
        if lmax < log[i] {
            lmax = log[i];
        }
        i += 1;
    }
    assert(log@.take(log.len() as int) =~= log@);
    lmax
}

/// Pushes the readings of one cycle to the front of the window, then drops
/// the oldest samples until no more than `cap` are left.
pub fn record(log: &mut VecDeque<usize>, temps: &Vec<usize>, cap: usize)
    ensures
        final(log)@ == sampled(old(log)@, temps@, cap),
        final(log)@.len() <= cap,
{
    let ghost start = log@;
    let mut i: usize = 0;
    while i < temps.len()
        invariant
            i <= temps.len(),
            log@ == temps@.take(i as int).reverse() + start,
        decreases temps.len() - i,
    {
        log.push_front(temps[i]);
        i += 1;
    }
    let ghost all = pushed(start, temps@);
    while log.len() > cap
        invariant
            log@.len() <= all.len(),
            log@ == all.take(log@.len() as int),
            all.len() <= cap ==> log@ == all,
            all.len() > cap ==> log@.len() >= cap,
        decreases log.len(),
    {
        log.pop_back();
    }
}

} // verus!
