//! A sliding-window throttler on the number of requests in flight.
use vstd::prelude::*;
use crossfire::waitgroup::{WaitGroup, WaitGroupGuard};

verus! {

#[verifier::external_type_specification]
#[verifier::external_body]
#[verifier::reject_recursive_types(T)]
pub struct ExWaitGroup<T>(WaitGroup<T>);

#[verifier::external_type_specification]
#[verifier::external_body]
#[verifier::reject_recursive_types(T)]
pub struct ExWaitGroupGuard<T>(WaitGroupGuard<T>);

/// The threshold a wait group's `wait` compares its reference count with:
/// the threshold it was given, plus one for its own reference.
pub uninterp spec fn wait_group_threshold(wg: WaitGroup<()>) -> usize;

/// `WaitGroup::new((), threshold)`: a wait group with no guard out. It stores
/// `threshold + 1` (counting its own reference), so `threshold` must be below
/// `usize::MAX`.
#[verifier::external_body]
fn wait_group_new(threshold: usize) -> (r: WaitGroup<()>)
    requires
        threshold < usize::MAX,
    ensures
        wait_group_threshold(r) == threshold + 1,
{
    WaitGroup::new((), threshold)
}

/// `WaitGroup::get_left`: how many guards are out. Guards are dropped by
/// other tasks at any time, so the number itself is left unsaid; what holds of
/// every outcome is its bound. crossfire keeps the count in the low bits of a
/// word whose two top bits are flags (`COUNT_MASK`, which is `usize::MAX / 4`),
/// and the wait group's own reference is one of them, so the number of guards
/// is below `usize::MAX / 4`.
#[verifier::external_body]
fn wait_group_left(wg: &WaitGroup<()>) -> (r: usize)
    ensures
        r < usize::MAX / 4,
{
    wg.get_left()
}

/// `WaitGroup::set_threshold`: stores `threshold + 1`, so `threshold` must be
/// below `usize::MAX`.
#[verifier::external_body]
fn wait_group_set_threshold(wg: &mut WaitGroup<()>, threshold: usize)
    requires
        threshold < usize::MAX,
    ensures
        wait_group_threshold(*final(wg)) == threshold + 1,
{
    wg.set_threshold(threshold);
}

/// `WaitGroup::add_guard`: one more guard out, released when it is dropped.
#[verifier::external_body]
fn wait_group_add_guard(wg: &WaitGroup<()>) -> WaitGroupGuard<()> {
    wg.add_guard()
}

/// Limits the requests in flight to a threshold; a threshold of 0 turns the
/// limit off.
pub struct Throttler {
    wg: WaitGroup<()>,
    thresholds: usize,
}

impl Throttler {
    /// The threshold in force.
    pub closed spec fn spec_thresholds(&self) -> usize {
        self.thresholds
    }

    /// A throttler with the given threshold.
    pub fn new(thresholds: usize) -> (r: Throttler)
        requires
            thresholds < usize::MAX,
        ensures
            r.spec_thresholds() == thresholds,
            wait_group_threshold(r.spec_wait_group()) == thresholds + 1,
    {
        Throttler { wg: wait_group_new(thresholds), thresholds }
    }

    /// Whether `inflight` requests in flight leave no room for one more.
    pub fn full_at(&self, inflight: usize) -> (r: bool)
        ensures
            r == (inflight + 1 > self.spec_thresholds()),
    {
        inflight >= self.thresholds
    }

    /// Whether the requests in flight leave no room for one more. The count
    /// is read at the moment of the call; with no threshold the window is
    /// always full, and a threshold above any count the wait group can hold
    /// never fills.
    pub fn nearly_full(&self) -> (r: bool)
        ensures
            self.spec_thresholds() == 0 ==> r,
            self.spec_thresholds() >= usize::MAX / 4 ==> !r,
    {
        self.full_at(self.get_inflight_count())
    }

    /// Whether the requests in flight reach the threshold. The count is read
    /// at the moment of the call; with no threshold it is always reached, and
    /// a threshold above any count the wait group can hold never is.
    pub fn is_full(&self) -> (r: bool)
        ensures
            self.spec_thresholds() == 0 ==> r,
            self.spec_thresholds() >= usize::MAX / 4 ==> !r,
    {
        self.reached_at(self.get_inflight_count())
    }

    /// Whether `inflight` requests in flight reach the threshold.
    pub fn reached_at(&self, inflight: usize) -> (r: bool)
        ensures
            r == (inflight >= self.spec_thresholds()),
    {
        inflight >= self.thresholds
    }

    /// Whether a sender must wait for the window to open before sending:
    /// only when a threshold is set.
    pub fn throttle(&self) -> (r: bool)
        ensures
            r == (self.spec_thresholds() > 0),
    {
        self.thresholds > 0
    }

    /// The wait group that in-flight requests hold guards of.
    pub closed spec fn spec_wait_group(&self) -> WaitGroup<()> {
        self.wg
    }

    /// The wait group that in-flight requests hold guards of; a sender that
    /// has to throttle waits on it.
    pub fn wait_group(&self) -> (r: &WaitGroup<()>)
        ensures
            *r == self.spec_wait_group(),
    {
        &self.wg
    }

    /// Counts one more request in flight until the guard is dropped.
    pub fn add_task(&self) -> WaitGroupGuard<()> {
        wait_group_add_guard(&self.wg)
    }

    /// Changes the threshold.
    pub fn set_thresholds(&mut self, thresholds: usize)
        requires
            thresholds < usize::MAX,
        ensures
            final(self).spec_thresholds() == thresholds,
            wait_group_threshold(final(self).spec_wait_group()) == thresholds + 1,
    {
        self.thresholds = thresholds;
        wait_group_set_threshold(&mut self.wg, thresholds);
    }

    /// The number of requests in flight, as read at the moment of the call:
    /// below `usize::MAX / 4`, the most the wait group can count.
    pub fn get_inflight_count(&self) -> (r: usize)
        ensures
            r < usize::MAX / 4,
    {
        wait_group_left(&self.wg)
    }
}

} // verus!
