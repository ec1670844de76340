use vstd::prelude::*;
use crate::refcount::{count_after, count_after_ops, RefCountOp};

verus! {

// A COM interface pointer is handled here as the address it holds; zero is null.

/// The step `safe_com_add_ref` asks for: a null pointer is never touched.
pub open spec fn add_ref_op(ptr: usize) -> RefCountOp {
    if ptr == 0 {
        RefCountOp::Nothing
    } else {
        RefCountOp::AddRef
    }
}

/// The step `safe_com_release` asks for: a null pointer is never touched.
pub open spec fn release_op(ptr: usize) -> RefCountOp {
    if ptr == 0 {
        RefCountOp::Nothing
    } else {
        RefCountOp::Release
    }
}

/// Promotes a borrowed interface pointer to an owned one: returns the same
/// pointer and the step to perform on it, an `AddRef` unless it is null.
pub fn safe_com_add_ref(ptr: usize) -> (r: (usize, RefCountOp))
    ensures
        r.0 == ptr,
        r.1 == add_ref_op(ptr),
{
    if ptr == 0 {
        (ptr, RefCountOp::Nothing)
    } else {
        (ptr, RefCountOp::AddRef)
    }
}

/// Gives up an owned interface pointer: the step to perform on it, a
/// `Release` unless it is null.
pub fn safe_com_release(ptr: usize) -> (r: RefCountOp)
    ensures
        r == release_op(ptr),
{
    if ptr == 0 {
        RefCountOp::Nothing
    } else {
        RefCountOp::Release
    }
}

/// `n` copies of an owning wrapper around `ptr`, each adding a reference,
/// followed by `m` drops, each releasing one.
pub open spec fn copies_then_drops(ptr: usize, n: nat, m: nat) -> Seq<RefCountOp> {
    Seq::new(n, |i: int| add_ref_op(ptr)) + Seq::new(m, |i: int| release_op(ptr))
}

/// On a null pointer neither helper changes the count; on any other pointer
/// the add-ref helper raises it by exactly one and the release helper lowers
/// it by exactly one.
pub proof fn lemma_com_helpers(ptr: usize, count: int)
    ensures
        ptr == 0 ==> count_after(count, add_ref_op(ptr)) == count,
        ptr == 0 ==> count_after(count, release_op(ptr)) == count,
        ptr != 0 ==> count_after(count, add_ref_op(ptr)) == count + 1,
        ptr != 0 ==> count_after(count, release_op(ptr)) == count - 1,
{
}

proof fn lemma_prefix_count(ptr: usize, count: int, n: nat, m: nat, k: nat)
    requires
        ptr != 0,
        k <= n + m,
    ensures
        count_after_ops(count, copies_then_drops(ptr, n, m).take(k as int)) == if k <= n {
            count + k
        } else {
            count + n - (k - n)
        },
    decreases k,
{
    let ops = copies_then_drops(ptr, n, m);
    if k > 0 {
        lemma_prefix_count(ptr, count, n, m, (k - 1) as nat);
        assert(ops.take(k as int).drop_last() =~= ops.take(k - 1));
    }
}

/// Making `n` copies of an owning wrapper around a live object and then
/// dropping all of them leaves the object's count where it was.
pub proof fn lemma_copies_then_drops(ptr: usize, count: int, n: nat)
    requires
        ptr != 0,
    ensures
        count_after_ops(count, copies_then_drops(ptr, n, n)) == count,
{
    let ops = copies_then_drops(ptr, n, n);
    lemma_prefix_count(ptr, count, n, n, 2 * n);
    assert(ops.take((2 * n) as int) =~= ops);
}

/// When the only owner of an object makes `n` copies and then all `n + 1`
/// owners are dropped, the count stays above zero until the last drop and is
/// zero after it: the object is destroyed exactly once, by the last drop.
pub proof fn lemma_last_drop_destroys_once(ptr: usize, n: nat)
    requires
        ptr != 0,
    ensures
        forall|k: int|
            0 <= k < 2 * n + 1 ==> #[trigger] count_after_ops(
                1,
                copies_then_drops(ptr, n, n + 1).take(k),
            ) > 0,
        count_after_ops(1, copies_then_drops(ptr, n, n + 1)) == 0,
{
    let ops = copies_then_drops(ptr, n, n + 1);
    assert forall|k: int| 0 <= k < 2 * n + 1 implies #[trigger] count_after_ops(
        1,
        ops.take(k),
    ) > 0 by {
        lemma_prefix_count(ptr, 1, n, n + 1, k as nat);
    }
    lemma_prefix_count(ptr, 1, n, n + 1, 2 * n + 1);
    assert(ops.take((2 * n + 1) as int) =~= ops);
}

} // verus!
