//! The monotonic clock the circuit breakers read: nanoseconds since the
//! clock was started, with a ghost record of the readings taken from it.
//!
//! The standard library's `Instant` is monotonically nondecreasing, so a
//! reading is never less than one taken earlier from the same start.

use vstd::prelude::*;

verus! {

/// The monotonic clock of the standard library.
#[verifier::external_type_specification]
#[verifier::external_body]
pub struct ExInstant(std::time::Instant);

/// `std::time::Instant::now`: the current instant of the monotonic clock.
/// Nothing is promised about the value.
#[verifier::external_body]
fn instant_now() -> std::time::Instant {
    std::time::Instant::now()
}

/// A monotonic clock read in nanoseconds since it was started.
pub struct Clock {
    origin: std::time::Instant,
    taken: Ghost<Seq<u128>>,
}

/// `Instant::elapsed` on the clock's start, as `Duration::as_nanos`. The
/// standard library documents an `Instant` as never less than any instant
/// measured before it (barring platform bugs), and `elapsed` saturates at
/// zero, so the value is at least every reading taken earlier
/// from the same start; the readings recorded in `clock` are such earlier
/// readings, since only [`Clock::read`] records one and a clock's start never
/// changes. Nothing more is promised of the value, which depends on the time
/// of the call.
#[verifier::external_body]
fn nanos_since(clock: &Clock) -> (r: u128)
    ensures
        forall|i: int| 0 <= i < clock.readings().len() ==> #[trigger] clock.readings()[i] <= r,
{
    clock.origin.elapsed().as_nanos()
}

impl Clock {
    /// The readings recorded so far, oldest first.
    pub closed spec fn readings(&self) -> Seq<u128> {
        self.taken@
    }

    /// The recorded readings never decrease.
    pub closed spec fn wf(&self) -> bool {
        forall|i: int, j: int| 0 <= i <= j < self.taken@.len() ==> self.taken@[i] <= self.taken@[j]
    }

    /// The newest recorded reading, 0 before any.
    pub open spec fn latest(&self) -> u128 {
        if self.readings().len() == 0 {
            0
        } else {
            self.readings().last()
        }
    }

    /// A clock started now, with no reading recorded.
    pub fn start() -> (r: Clock)
        ensures
            r.wf(),
            r.readings() == Seq::<u128>::empty(),
    {
        Clock { origin: instant_now(), taken: Ghost(Seq::empty()) }
    }

    /// The current reading, not recorded; it is at least the newest
    /// recorded one.
    pub fn peek(&self) -> (r: u128)
        requires
            self.wf(),
        ensures
            r >= self.latest(),
    {
        let r = nanos_since(self);
        proof {
            if self.readings().len() > 0 {
                assert(self.readings()[self.readings().len() - 1] <= r);
            }
        }
        r
    }

    /// The current reading, recorded as the newest one.
    pub fn read(&mut self) -> (r: u128)
        requires
            old(self).wf(),
        ensures
            final(self).wf(),
            final(self).readings() == old(self).readings().push(r),
            r >= old(self).latest(),
            final(self).latest() == r,
    {
        let r = nanos_since(self);
        proof {
            let old_taken = self.taken@;
            assert forall|i: int| 0 <= i < old_taken.len() implies old_taken[i] <= r by {
                assert(self.readings()[i] <= r);
            }
            self.taken@ = old_taken.push(r);
        }
        r
    }
}

} // verus!
