//! Decisions of the escape-time loop.
//!
//! The orbit z <- z^2 + c starts at z = 0. At each iteration index i below
//! the cap the loop first checks whether |z| > 2 and, if so, settles on i;
//! only otherwise it updates z. A point whose orbit stays in the disk for
//! the whole cap settles on the cap itself. The orbit arithmetic is done by
//! the caller; the library decides, from the index and from whether the
//! current orbit value lies outside the disk, what happens next.
use vstd::prelude::*;

verus! {

/// What the escape-time loop does after one check of the orbit.
#[derive(Clone, Copy, Debug, PartialEq, Eq, Structural)]
pub enum EscapeStep {
    /// The escape count is settled at this value.
    Done(usize),
    /// Update the orbit once, then check again at this iteration index.
    Iterate(usize),
}

/// The step taken at iteration index `i` under cap `max_iters`, where
/// `outside` tells whether the current orbit value has left the disk.
pub open spec fn step_of(i: nat, max_iters: nat, outside: bool) -> EscapeStep {
    if i >= max_iters {
        EscapeStep::Done(max_iters as usize)
    } else if outside {
        EscapeStep::Done(i as usize)
    } else {
        EscapeStep::Iterate((i + 1) as usize)
    }
}

/// The escape count of an orbit from index `i` on: the first index `j` with
/// `i <= j < max_iters` at which the orbit lies outside the disk, or
/// `max_iters` when there is none. `outside[j]` tells whether the orbit
/// value before the `j`-th update lies outside the disk.
pub open spec fn escape_from(outside: Seq<bool>, i: nat, max_iters: nat) -> nat
    decreases max_iters - i,
{
    if i >= max_iters {
        max_iters
    } else if outside[i as int] {
        i
    } else {
        escape_from(outside, i + 1, max_iters)
    }
}

/// The escape count of a whole orbit under cap `max_iters`.
pub open spec fn escape_time(outside: Seq<bool>, max_iters: nat) -> nat {
    escape_from(outside, 0, max_iters)
}

/// Decides the next move of the escape-time loop at iteration index `i`.
///
/// At the cap the count is the cap, whatever the orbit does; below it an
/// orbit outside the disk settles the count at `i`, and one inside asks for
/// one more update.
pub fn escape_step(i: usize, max_iters: usize, outside: bool) -> (r: EscapeStep)
    requires
        i <= max_iters,
    ensures
        r == step_of(i as nat, max_iters as nat, outside),
{
    if i == max_iters {
        EscapeStep::Done(max_iters)
    } else if outside {
        EscapeStep::Done(i)
    } else {
        EscapeStep::Iterate(i + 1)
    }
}

/// Following the steps along an orbit computes its escape count: a settled
/// step gives the count from index `i`, and a further iteration leaves it
/// unchanged.
pub proof fn lemma_step_follows_escape_time(outside: Seq<bool>, i: nat, max_iters: nat)
    requires
        i <= max_iters <= usize::MAX,
        i < outside.len(),
    ensures
        step_of(i, max_iters, outside[i as int]) matches EscapeStep::Done(n) ==> n as nat
            == escape_from(outside, i, max_iters),
        step_of(i, max_iters, outside[i as int]) matches EscapeStep::Iterate(j) ==> j as nat
            == i + 1 && escape_from(outside, j as nat, max_iters) == escape_from(
            outside,
            i,
            max_iters,
        ),
{
}

/// The escape count from index `i` lies in `[i, max_iters]`; below the cap
/// the orbit is outside the disk there and inside it at every earlier index
/// from `i` on.
pub proof fn lemma_escape_from_bounds(outside: Seq<bool>, i: nat, max_iters: nat)
    requires
        i <= max_iters,
    ensures
        i <= escape_from(outside, i, max_iters) <= max_iters,
        escape_from(outside, i, max_iters) < max_iters ==> outside[escape_from(
            outside,
            i,
            max_iters,
        ) as int],
        forall|j: nat| i <= j < escape_from(outside, i, max_iters) ==> !outside[j as int],
    decreases max_iters - i,
{
    if i < max_iters && !outside[i as int] {
        lemma_escape_from_bounds(outside, i + 1, max_iters);
    }
}

/// Every escape count lies in `[0, max_iters]`, and it is the first index at
/// which the orbit is outside the disk, or the cap when there is none.
pub proof fn lemma_escape_time_bounds(outside: Seq<bool>, max_iters: nat)
    ensures
        escape_time(outside, max_iters) <= max_iters,
        escape_time(outside, max_iters) < max_iters ==> outside[escape_time(
            outside,
            max_iters,
        ) as int],
        forall|j: nat| j < escape_time(outside, max_iters) ==> !outside[j as int],
{
    lemma_escape_from_bounds(outside, 0, max_iters);
}

/// The escape count depends on nothing but the orbit's first `max_iters`
/// checks: two orbits that agree there have the same count.
pub proof fn lemma_escape_time_deterministic(a: Seq<bool>, b: Seq<bool>, max_iters: nat)
    requires
        forall|j: int| 0 <= j < max_iters ==> a[j] == b[j],
    ensures
        escape_time(a, max_iters) == escape_time(b, max_iters),
{
    lemma_escape_from_agree(a, b, 0, max_iters);
}

proof fn lemma_escape_from_agree(a: Seq<bool>, b: Seq<bool>, i: nat, max_iters: nat)
    requires
        forall|j: int| 0 <= j < max_iters ==> a[j] == b[j],
    ensures
        escape_from(a, i, max_iters) == escape_from(b, i, max_iters),
    decreases max_iters - i,
{
    if i < max_iters {
        lemma_escape_from_agree(a, b, i + 1, max_iters);
    }
}

/// An orbit that never leaves the disk, such as that of the origin, where z
/// stays 0, has the cap as its count.
pub proof fn lemma_bounded_orbit_reaches_cap(outside: Seq<bool>, max_iters: nat)
    requires
        forall|j: int| 0 <= j < max_iters ==> !outside[j],
    ensures
        escape_time(outside, max_iters) == max_iters,
{
    lemma_escape_time_bounds(outside, max_iters);
}

/// The check comes before the update, and the orbit starts at z = 0, inside
/// the disk: so no count is 0 under a positive cap. A point such as 2 + 2i,
/// whose first update already leaves the disk, has count 1 under every
/// positive cap.
pub proof fn lemma_first_update_escapes(outside: Seq<bool>, max_iters: nat)
    requires
        max_iters >= 1,
        !outside[0],
        outside[1],
    ensures
        escape_time(outside, max_iters) == 1,
{
    assert(escape_from(outside, 0, max_iters) == escape_from(outside, 1, max_iters));
}

} // verus!
