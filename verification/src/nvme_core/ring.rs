//! The bounded queues of `crossbeam_queue` that carry NVMe descriptors.
use vstd::prelude::*;
use crossbeam_queue::ArrayQueue;
use super::runqueue::{NvmeBlockDescriptor, NvmeCompletionResponse};

verus! {

#[verifier::external_type_specification]
#[verifier::external_body]
#[verifier::reject_recursive_types(T)]
pub struct ExArrayQueue<T>(ArrayQueue<T>);

/// The descriptors a submission ring holds, oldest first.
pub uninterp spec fn submission_items(q: ArrayQueue<NvmeBlockDescriptor>) -> Seq<NvmeBlockDescriptor>;

/// The capacity a submission ring was made with.
pub uninterp spec fn submission_capacity(q: ArrayQueue<NvmeBlockDescriptor>) -> nat;

/// The responses a completion ring holds, oldest first.
pub uninterp spec fn completion_items(q: ArrayQueue<NvmeCompletionResponse>) -> Seq<NvmeCompletionResponse>;

/// The capacity a completion ring was made with.
pub uninterp spec fn completion_capacity(q: ArrayQueue<NvmeCompletionResponse>) -> nat;

/// `ArrayQueue::new` for descriptors: an empty queue of capacity `cap`
/// (the crate panics on 0 and on capacities whose next power of two does
/// not fit, which `requires` leaves out).
#[verifier::external_body]
pub(crate) fn new_submission_ring(cap: usize) -> (q: ArrayQueue<NvmeBlockDescriptor>)
    requires
        0 < cap <= isize::MAX,
    ensures
        submission_items(q) == Seq::<NvmeBlockDescriptor>::empty(),
        submission_capacity(q) == cap,
{
    ArrayQueue::new(cap)
}

/// `ArrayQueue::new` for completions: an empty queue of capacity `cap`.
#[verifier::external_body]
pub(crate) fn new_completion_ring(cap: usize) -> (q: ArrayQueue<NvmeCompletionResponse>)
    requires
        0 < cap <= isize::MAX,
    ensures
        completion_items(q) == Seq::<NvmeCompletionResponse>::empty(),
        completion_capacity(q) == cap,
{
    ArrayQueue::new(cap)
}

/// `ArrayQueue::push`: appends `value` unless the queue holds as many items
/// as its capacity, in which case `value` comes back as the error and the
/// queue is unchanged.
#[verifier::external_body]
pub(crate) fn push_submission(
    q: &mut ArrayQueue<NvmeBlockDescriptor>,
    value: NvmeBlockDescriptor,
) -> (r: Result<(), NvmeBlockDescriptor>)
    ensures
        submission_capacity(*final(q)) == submission_capacity(*old(q)),
        submission_items(*old(q)).len() < submission_capacity(*old(q)) ==> r is Ok
            && submission_items(*final(q)) == submission_items(*old(q)).push(value),
        submission_items(*old(q)).len() >= submission_capacity(*old(q)) ==> (r matches Err(v) && v == value)
            && submission_items(*final(q)) == submission_items(*old(q)),
{
    q.push(value)
}

/// `ArrayQueue::pop`: takes the oldest item, or `None` when empty.
#[verifier::external_body]
pub(crate) fn pop_submission(q: &mut ArrayQueue<NvmeBlockDescriptor>) -> (r: Option<NvmeBlockDescriptor>)
    ensures
        submission_capacity(*final(q)) == submission_capacity(*old(q)),
        submission_items(*old(q)).len() == 0 ==> r is None && submission_items(*final(q))
            == submission_items(*old(q)),
        submission_items(*old(q)).len() > 0 ==> r == Some(submission_items(*old(q))[0])
            && submission_items(*final(q)) == submission_items(*old(q)).drop_first(),
{
    q.pop()
}

} // verus!
