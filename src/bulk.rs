use vstd::prelude::*;

verus! {

/// The sum of the counts that transmit calls reported.
pub open spec fn reported_total(rets: Seq<u32>) -> nat
    decreases rets.len(),
{
    if rets.len() == 0 {
        0
    } else {
        reported_total(rets.drop_last()) + rets.last() as nat
    }
}

/// The transmit count for per-call results `rets`: their sum, saturated at
/// `u32::MAX` where the sum does not fit in the count's type.
pub open spec fn transmit_count(rets: Seq<u32>) -> u32 {
    if reported_total(rets) <= u32::MAX as nat {
        reported_total(rets) as u32
    } else {
        u32::MAX
    }
}

pub proof fn lemma_reported_total_bound(rets: Seq<u32>)
    requires
        forall|i: int| 0 <= i < rets.len() ==> rets[i] <= 1,
    ensures
        reported_total(rets) <= rets.len(),
    decreases rets.len(),
{
    if rets.len() > 0 {
        lemma_reported_total_bound(rets.drop_last());
    }
}

/// When each of at most `u32::MAX` single-frame calls reports 0 or 1 frames
/// taken, the transmit count is exactly the number of frames the native
/// layer took: K of N gives K.
pub proof fn lemma_partial_transmit_count(rets: Seq<u32>)
    requires
        rets.len() <= u32::MAX,
        forall|i: int| 0 <= i < rets.len() ==> rets[i] <= 1,
    ensures
        transmit_count(rets) as nat == reported_total(rets),
        transmit_count(rets) <= rets.len(),
{
    lemma_reported_total_bound(rets);
}

/// The number of frames sent by transmit calls that returned `rets`: the
/// counts they reported, added up, saturating at `u32::MAX`.
pub fn count_accepted(rets: &Vec<u32>) -> (r: u32)
    ensures
        r == transmit_count(rets@),
{
    let mut count: u32 = 0;
    let mut saturated = false;
    let mut i: usize = 0;
    while i < rets.len()
        invariant
            i <= rets.len(),
            saturated ==> reported_total(rets@.take(i as int)) > u32::MAX as nat && count == u32::MAX,
            !saturated ==> count as nat == reported_total(rets@.take(i as int)),
        decreases rets.len() - i,
    {
        proof {
            assert(rets@.take(i as int + 1).drop_last() =~= rets@.take(i as int));
        }
        if !saturated {
            if count <= u32::MAX - rets[i] {
                count = count + rets[i];
            } else {
                count = u32::MAX;
                saturated = true;
            }
        }
        i += 1;
    }
    assert(rets@.take(rets.len() as int) =~= rets@);
    count
}

/// The positions `r` lists exactly the failed codes of `codes` (those other
/// than 1), in ascending order.
pub open spec fn lists_rejections(r: Seq<usize>, codes: Seq<u32>) -> bool {
    &&& forall|k: int| 0 <= k < r.len() ==> r[k] < codes.len() && codes[r[k] as int] != 1
    &&& forall|i: int| 0 <= i < codes.len() && codes[i] != 1 ==> r.contains(i as usize)
    &&& forall|k: int, l: int| 0 <= k < l < r.len() ==> r[k] < r[l]
}

/// The positions of the writes whose native status was a failure, ascending.
pub fn rejected_positions(codes: &Vec<u32>) -> (r: Vec<usize>)
    ensures
        lists_rejections(r@, codes@),
{
    let mut r: Vec<usize> = Vec::new();
    let mut i: usize = 0;
    while i < codes.len()
        invariant
            i <= codes.len(),
            forall|k: int| 0 <= k < r.len() ==> r@[k] < i && codes@[r@[k] as int] != 1,
            forall|j: int| 0 <= j < i && codes@[j] != 1 ==> r@.contains(j as usize),
            forall|k: int, l: int| 0 <= k < l < r.len() ==> r@[k] < r@[l],
        decreases codes.len() - i,
    {
        let ghost before = r@;
        if codes[i] != 1 {
            r.push(i);
            assert(r@[r.len() - 1] == i);
        }
        proof {
            assert forall|j: int| 0 <= j < i + 1 && codes@[j] != 1 implies r@.contains(j as usize) by {
                if j < i {
                    assert(before.contains(j as usize));
                    let k = choose|k: int| 0 <= k < before.len() && before[k] == j as usize;
                    assert(r@[k] == j as usize);
                } else {
                    assert(r@[r.len() - 1] == j as usize);
                }
            }
        }
        i += 1;
    }
    r
}

/// The elements of `v` in reverse order.
pub fn reversed<T>(v: Vec<T>) -> (r: Vec<T>)
    ensures
        r@ == v@.reverse(),
{
    let ghost all = v@;
    let mut rest = v;
    let mut out: Vec<T> = Vec::new();
    while rest.len() > 0
        invariant
            rest@ + out@.reverse() == all,
        decreases rest.len(),
    {
        let ghost before = rest@;
        let ghost out_before = out@;
        let item = rest.pop().unwrap();
        out.push(item);
        proof {
            assert(out@.reverse() =~= seq![item] + out_before.reverse());
            assert(before =~= rest@.push(item));
        }
        assert(rest@ + out@.reverse() =~= all);
    }
    assert(out@.reverse() =~= all);
    assert(out@ =~= all.reverse()) by {
        assert(out@.reverse().reverse() =~= out@);
    }
    out
}

/// The frames that single-frame receive calls delivered: a call delivered its
/// frame exactly when it reported one frame.
pub open spec fn delivered<F>(results: Seq<(u32, F)>) -> Seq<F>
    decreases results.len(),
{
    if results.len() == 0 {
        Seq::empty()
    } else {
        let rest = delivered(results.drop_last());
        if results.last().0 == 1 {
            rest.push(results.last().1)
        } else {
            rest
        }
    }
}

/// How many single-frame receive calls reported one frame.
pub open spec fn delivered_count<F>(results: Seq<(u32, F)>) -> nat
    decreases results.len(),
{
    if results.len() == 0 {
        0
    } else {
        delivered_count(results.drop_last()) + if results.last().0 == 1 { 1nat } else { 0nat }
    }
}

/// A receive returns one frame per call that delivered one, so never more
/// frames than it made calls.
pub proof fn lemma_delivered_len<F>(results: Seq<(u32, F)>)
    ensures
        delivered(results).len() == delivered_count(results),
        delivered_count(results) <= results.len(),
    decreases results.len(),
{
    if results.len() > 0 {
        lemma_delivered_len(results.drop_last());
    }
}

/// Keeps, in order, the frames of the receive calls that reported exactly one
/// frame, from `results`, one (count, frame) pair per call.
pub fn keep_delivered<F>(results: Vec<(u32, F)>) -> (r: Vec<F>)
    ensures
        r@ == delivered(results@),
        r.len() == delivered_count(results@),
        r.len() <= results.len(),
{
    let ghost all = results@;
    let mut pending = reversed(results);
    let mut frames: Vec<F> = Vec::new();
    let ghost mut taken: Seq<(u32, F)> = Seq::empty();
    assert(taken + pending@.reverse() =~= all) by {
        assert(pending@.reverse() =~= all.reverse().reverse());
    }
    while pending.len() > 0
        invariant
            taken + pending@.reverse() == all,
            frames@ == delivered(taken),
        decreases pending.len(),
    {
        let ghost before = pending@;
        let (n, frame) = pending.pop().unwrap();
        proof {
            assert(before =~= pending@.push((n, frame)));
            assert(before.reverse() =~= seq![(n, frame)] + pending@.reverse());
            let prev = taken;
            taken = taken.push((n, frame));
            assert(taken.drop_last() =~= prev);
        }
        if n == 1 {
            frames.push(frame);
        }
        assert(taken + pending@.reverse() =~= all);
    }
    assert(pending@.reverse() =~= Seq::<(u32, F)>::empty());
    assert(taken =~= all);
    proof {
        lemma_delivered_len(all);
    }
    frames
}

/// The frames a bulk receive call actually filled: the first `count` of the
/// buffer it was given, or all of them if it reports more.
pub fn take_received<F>(count: u32, frames: Vec<F>) -> (r: Vec<F>)
    ensures
        r@ == frames@.take(if count as int <= frames.len() { count as int } else { frames.len() as int }),
{
    let mut frames = frames;
    if (count as usize) < frames.len() {
        frames.truncate(count as usize);
    }
    frames
}

} // verus!
