use vstd::prelude::*;

verus! {

/// The slot sequence of a freshly built container: every source element
/// present, in source order.
pub open spec fn fresh_slots<T>(source: Seq<T>) -> Seq<Option<T>> {
    source.map(|i: int, t: T| Some(t))
}

/// The number of indices the half-open range `start..end` covers.
pub open spec fn range_len(start: int, end: int) -> int {
    if start <= end {
        end - start
    } else {
        0
    }
}

/// What taking a whole range out of a slot sequence returns: one entry per
/// index of the range, in ascending order; the slot's content where the
/// index is in bounds, empty where it is not.
pub open spec fn range_take_result<T>(slots: Seq<Option<T>>, start: int, end: int) -> Seq<
    Option<T>,
> {
    Seq::new(
        range_len(start, end) as nat,
        |k: int|
            if 0 <= start + k < slots.len() {
                slots[start + k]
            } else {
                None
            },
    )
}

/// The slot sequence a range take leaves behind: every in-range index
/// emptied, every other slot untouched.
pub open spec fn range_take_rest<T>(slots: Seq<Option<T>>, start: int, end: int) -> Seq<
    Option<T>,
> {
    Seq::new(
        slots.len(),
        |i: int|
            if start <= i < end {
                None
            } else {
                slots[i]
            },
    )
}

/// Taking a slot is idempotent: once a take has emptied slot `i`, a further
/// take at `i` finds the slot empty and leaves the sequence as it was.
pub proof fn lemma_take_idempotent<T>(slots: Seq<Option<T>>, i: int)
    requires
        0 <= i < slots.len(),
    ensures
        slots.update(i, None::<T>)[i] is None,
        slots.update(i, None::<T>).update(i, None::<T>) == slots.update(i, None::<T>),
{
    assert(slots.update(i, None::<T>).update(i, None::<T>) =~= slots.update(i, None::<T>));
}

/// On a freshly built container the first take at `i` yields the `i`-th
/// source element, present; the slot it leaves behind is empty.
pub proof fn lemma_fresh_take<T>(source: Seq<T>, i: int)
    requires
        0 <= i < source.len(),
    ensures
        fresh_slots(source)[i] == Some(source[i]),
        fresh_slots(source).update(i, None::<T>)[i] is None,
{
}

/// On a freshly built container a range take over `a..b` yields exactly the
/// source elements at `a..b`, each present, and leaves every slot in `a..b`
/// empty.
pub proof fn lemma_fresh_range_take<T>(source: Seq<T>, a: int, b: int)
    requires
        0 <= a <= b <= source.len(),
    ensures
        range_take_result(fresh_slots(source), a, b) == fresh_slots(source.subrange(a, b)),
        forall|i: int| a <= i < b ==> range_take_rest(fresh_slots(source), a, b)[i] is None,
{
    assert(range_take_result(fresh_slots(source), a, b) =~= fresh_slots(source.subrange(a, b)));
}

/// Applies `f` to every element of `v` in ascending order, collecting the
/// results positionally.
pub(crate) fn map_vec<T, U, F: Fn(T) -> U>(v: Vec<T>, f: F) -> (r: Vec<U>)
    requires
        forall|k: int| 0 <= k < v@.len() ==> call_requires(f, (v@[k],)),
    ensures
        r@.len() == v@.len(),
        forall|k: int| 0 <= k < v@.len() ==> call_ensures(f, (v@[k],), #[trigger] r@[k]),
{
    let ghost source = v@;
    let mut v = v;
    let mut rev: Vec<T> = Vec::new();
    while v.len() > 0
        invariant
            v@.len() + rev@.len() == source.len(),
            v@ == source.subrange(0, v@.len() as int),
            forall|k: int| 0 <= k < rev@.len() ==> rev@[k] == source[source.len() - 1 - k],
        decreases v@.len(),
    {
        let x = v.pop().unwrap();
        rev.push(x);
        proof {
            assert(v@ =~= source.subrange(0, v@.len() as int));
        }
    }
    let mut out: Vec<U> = Vec::new();
    while rev.len() > 0
        invariant
            rev@.len() + out@.len() == source.len(),
            forall|k: int| 0 <= k < rev@.len() ==> rev@[k] == source[source.len() - 1 - k],
            forall|k: int| 0 <= k < source.len() ==> call_requires(f, (source[k],)),
            forall|k: int|
                0 <= k < out@.len() ==> call_ensures(f, (source[k],), #[trigger] out@[k]),
        decreases rev@.len(),
    {
        let x = rev.pop().unwrap();
        let y = f(x);
        out.push(y);
    }
    out
}

/// Takes every index of `start..end` out of `slots` in ascending order:
/// in-bounds slots are emptied and their content collected, out-of-bounds
/// indices contribute an empty entry without faulting.
pub(crate) fn take_range_from_slots<T>(slots: &mut Vec<Option<T>>, start: usize, end: usize) -> (r:
    Vec<Option<T>>)
    ensures
        r@ == range_take_result(old(slots)@, start as int, end as int),
        final(slots)@ == range_take_rest(old(slots)@, start as int, end as int),
{
    let mut out: Vec<Option<T>> = Vec::new();
    if start >= end {
        proof {
            assert(out@ =~= range_take_result(old(slots)@, start as int, end as int));
            assert(slots@ =~= range_take_rest(old(slots)@, start as int, end as int));
        }
        return out;
    }
    let mut i = start;
    while i < end
        invariant
            start <= i <= end,
            slots@.len() == old(slots)@.len(),
            out@.len() == i - start,
            forall|k: int|
                0 <= k < out@.len() ==> out@[k] == (if 0 <= start + k < old(slots)@.len() {
                    old(slots)@[start + k]
                } else {
                    None::<T>
                }),
            forall|j: int|
                0 <= j < slots@.len() ==> slots@[j] == (if start <= j < i {
                    None::<T>
                } else {
                    old(slots)@[j]
                }),
        decreases end - i,
    {
        if i < slots.len() {
            let slot = &mut slots[i];
            let taken = slot.take();
            out.push(taken);
        } else {
            out.push(None);
        }
        i += 1;
    }
    proof {
        assert(out@ =~= range_take_result(old(slots)@, start as int, end as int));
        assert(slots@ =~= range_take_rest(old(slots)@, start as int, end as int));
    }
    out
}

} // verus!
