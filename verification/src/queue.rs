//! Handing values out from the front.

use std::collections::VecDeque;

use vstd::prelude::*;

verus! {

/// The values of a list as a queue, in order.
pub fn into_queue<T>(items: Vec<T>) -> (r: VecDeque<T>)
    ensures
        r@ == items@,
{
    let ghost all = items@;
    let mut source: Vec<T> = items;
    let mut queue: VecDeque<T> = VecDeque::new();
    while source.len() > 0
        invariant
            source@.len() <= all.len(),
            source@ == all.take(source@.len() as int),
            queue@ == all.skip(source@.len() as int),
        decreases source@.len(),
    {
        if let Some(item) = source.pop() {
            queue.push_front(item);
            proof {
                assert(source@ =~= all.take(source@.len() as int));
                assert(queue@ =~= all.skip(source@.len() as int));
            }
        }
    }
    assert(queue@ =~= all);
    queue
}

} // verus!
