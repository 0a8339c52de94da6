//! Which iterations a report draws, and the names the reports give the methods.
use vstd::prelude::*;

verus! {

/// `lo, lo + step, lo + 2·step, ...` while not beyond `hi`.
pub open spec fn stepped_range(lo: int, hi: int, step: int) -> Seq<int>
    decreases hi - lo + step,
    when step > 0
{
    if lo > hi {
        Seq::empty()
    } else {
        seq![lo] + stepped_range(lo + step, hi, step)
    }
}

/// `x - 1`, or 0 for 0.
pub open spec fn minus_one_or_zero(x: int) -> int {
    if x > 0 { x - 1 } else { 0 }
}

/// The indices of the iterations drawn in a report of steps `start_step` to
/// `end_step` (counted from 1) taking every `interval`-th one, for a history
/// of `history_len` iterations: the range is cut at the last iteration.
pub open spec fn spec_export_steps(start_step: usize, end_step: usize, interval: usize, history_len: usize) -> Seq<int> {
    let start_idx = minus_one_or_zero(start_step as int);
    let last_idx = minus_one_or_zero(end_step as int);
    let end_idx = if last_idx < history_len - 1 { last_idx } else { history_len - 1 };
    stepped_range(start_idx, end_idx, interval as int)
}

/// The indices of the iterations to draw, in order.
pub fn export_steps(start_step: usize, end_step: usize, interval: usize, history_len: usize) -> (steps: Vec<usize>)
    requires
        history_len > 0,
        interval > 0,
    ensures
        steps@.map_values(|i: usize| i as int) == spec_export_steps(start_step, end_step, interval, history_len),
{
    let start_idx = if start_step > 0 { start_step - 1 } else { 0 };
    let last_idx = if end_step > 0 { end_step - 1 } else { 0 };
    let end_idx = if last_idx < history_len - 1 { last_idx } else { history_len - 1 };
    let ghost whole = stepped_range(start_idx as int, end_idx as int, interval as int);
    let mut steps: Vec<usize> = Vec::new();
    let mut i = start_idx;
    assert(steps@.map_values(|v: usize| v as int) + stepped_range(i as int, end_idx as int, interval as int) == whole);
    while i <= end_idx
        invariant
            interval > 0,
            end_idx < history_len,
            whole == spec_export_steps(start_step, end_step, interval, history_len),
            steps@.map_values(|v: usize| v as int) + stepped_range(i as int, end_idx as int, interval as int) == whole,
        decreases end_idx - i,
    {
        let ghost before = steps@;
        steps.push(i);
        assert(steps@.map_values(|v: usize| v as int) == before.map_values(|v: usize| v as int).push(i as int));
        assert(stepped_range(i as int, end_idx as int, interval as int) == seq![i as int] + stepped_range(
            i + interval,
            end_idx as int,
            interval as int,
        ));
        if interval > end_idx - i {
            assert(stepped_range(i + interval, end_idx as int, interval as int) == Seq::<int>::empty());
            assert(steps@.map_values(|v: usize| v as int) == whole);
            return steps;
        }
        i = i + interval;
    }
    assert(stepped_range(i as int, end_idx as int, interval as int) == Seq::<int>::empty());
    assert(steps@.map_values(|v: usize| v as int) == whole);
    steps
}

/// The numbers of a stepped range lie between its bounds, start at its lower
/// bound, and go up by exactly the step.
pub proof fn lemma_stepped_range(lo: int, hi: int, step: int)
    requires
        step > 0,
    ensures
        forall|k: int| 0 <= k < stepped_range(lo, hi, step).len() ==> lo <= #[trigger] stepped_range(lo, hi, step)[k] <= hi,
        forall|k: int| 0 <= k < stepped_range(lo, hi, step).len() - 1 ==> #[trigger] stepped_range(lo, hi, step)[k + 1] == stepped_range(lo, hi, step)[k] + step,
        (stepped_range(lo, hi, step).len() == 0) == (lo > hi),
        lo <= hi ==> stepped_range(lo, hi, step)[0] == lo,
        lo <= hi ==> stepped_range(lo, hi, step).last() + step > hi,
    decreases hi - lo + step,
{
    if lo <= hi {
        let rest = stepped_range(lo + step, hi, step);
        lemma_stepped_range(lo + step, hi, step);
        let s = stepped_range(lo, hi, step);
        assert(s == seq![lo] + rest);
        assert forall|k: int| 0 <= k < s.len() - 1 implies #[trigger] s[k + 1] == s[k] + step by {
            if k > 0 {
                assert(s[k] == rest[k - 1]);
                assert(rest[(k - 1) + 1] == rest[k - 1] + step);
            }
        }
    }
}

/// A report only draws iterations of the history, each once, in order, every
/// `interval`-th one from the first requested step; it draws none exactly
/// when the first requested step lies beyond the last one requested.
pub proof fn lemma_export_steps(start_step: usize, end_step: usize, interval: usize, history_len: usize)
    requires
        history_len > 0,
        interval > 0,
    ensures
        ({
            let s = spec_export_steps(start_step, end_step, interval, history_len);
            let start_idx = minus_one_or_zero(start_step as int);
            let last_idx = minus_one_or_zero(end_step as int);
            &&& forall|k: int| 0 <= k < s.len() ==> 0 <= #[trigger] s[k] < history_len && s[k] <= last_idx
            &&& forall|k: int| 0 <= k < s.len() - 1 ==> #[trigger] s[k + 1] == s[k] + interval
            &&& (s.len() == 0) == (start_idx > last_idx || start_idx >= history_len)
            &&& s.len() > 0 ==> s[0] == start_idx
            &&& s.len() > 0 ==> s.last() + interval > last_idx || s.last() + interval >= history_len
        }),
{
    let start_idx = minus_one_or_zero(start_step as int);
    let last_idx = minus_one_or_zero(end_step as int);
    let end_idx = if last_idx < history_len - 1 { last_idx } else { history_len - 1 };
    lemma_stepped_range(start_idx, end_idx, interval as int);
}

} // verus!
