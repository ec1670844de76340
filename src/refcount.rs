use vstd::prelude::*;

verus! {

/// What a reference-counting step does to a native object's count.
#[derive(Clone, Copy, Debug, PartialEq, Eq, Structural)]
pub enum RefCountOp {
    /// Leaves the count alone.
    Nothing,
    /// Adds one reference.
    AddRef,
    /// Drops one reference; the native library destroys the object at zero.
    Release,
}

/// The count after one step.
pub open spec fn count_after(count: int, op: RefCountOp) -> int {
    match op {
        RefCountOp::Nothing => count,
        RefCountOp::AddRef => count + 1,
        RefCountOp::Release => count - 1,
    }
}

/// The count after the steps of `ops`, in order.
pub open spec fn count_after_ops(count: int, ops: Seq<RefCountOp>) -> int
    decreases ops.len(),
{
    if ops.len() == 0 {
        count
    } else {
        count_after(count_after_ops(count, ops.drop_last()), ops.last())
    }
}

} // verus!
