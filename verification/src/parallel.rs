//! What this library takes from rayon, and on trust.

use vstd::prelude::*;

verus! {

/// `rayon::join` calls each of the two closures once, possibly on two
/// threads at the same time, waits for both, and returns their results as a
/// pair, the first closure's first. Nothing more is claimed here: each
/// closure must be callable, and each half of the pair is a result of the
/// closure it came from.
///
/// A panic of a closure is passed on by `join`; closures that are verified
/// do not panic. `join` starts rayon's global thread pool on first use and
/// panics if the machine cannot provide one.
pub assume_specification<A, B, RA, RB>[ rayon::join::<A, B, RA, RB> ](
    oper_a: A,
    oper_b: B,
) -> (results: (RA, RB))
    where
        A: FnOnce() -> RA + Send,
        B: FnOnce() -> RB + Send,
        RA: Send,
        RB: Send,
    requires
        oper_a.requires(()),
        oper_b.requires(()),
    ensures
        oper_a.ensures((), results.0),
        oper_b.ensures((), results.1),
;

/// `rayon::current_num_threads` returns the number of threads of the pool
/// that the caller runs in, or of the global pool. It depends on the machine
/// and its environment, so nothing is claimed of the number.
pub assume_specification[ rayon::current_num_threads ]() -> (count: usize);

} // verus!
