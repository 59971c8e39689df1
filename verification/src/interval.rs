use std::num::TryFromIntError;
use std::sync::atomic::AtomicU64;
use std::sync::Arc;
use std::time::Duration;
use vstd::prelude::*;

verus! {

/// The total number of nanoseconds in a duration, as `Duration::as_nanos`
/// returns it.
pub uninterp spec fn duration_nanos(d: Duration) -> u128;

/// The whole milliseconds in a duration.
pub open spec fn millis_spec(d: Duration) -> u128 {
    duration_nanos(d) / 1_000_000
}

/// `Duration::as_millis`: by its documentation, the total number of whole
/// milliseconds in the duration, that is, its nanoseconds divided by a million
/// and rounded down.
#[verifier::external_body]
fn duration_as_millis(d: Duration) -> (ms: u128)
    ensures
        ms == duration_nanos(d) / 1_000_000,
{
    d.as_millis()
}

/// `Duration::from_millis`: by its documentation, the duration of `ms`
/// milliseconds, that is, of `ms` million nanoseconds.
#[verifier::external_body]
fn duration_from_millis(ms: u64) -> (d: Duration)
    ensures
        duration_nanos(d) == ms * 1_000_000,
{
    Duration::from_millis(ms)
}

/// `==` on `Duration`: two durations are equal exactly when they hold the same
/// number of nanoseconds (std compares the whole seconds and the nanoseconds
/// below a second, which the total determines).
#[verifier::external_body]
fn durations_equal(a: Duration, b: Duration) -> (eq: bool)
    ensures
        eq == (duration_nanos(a) == duration_nanos(b)),
{
    a == b
}

/// The interval in whole milliseconds, when that fits in a `u64`, which the
/// tasks that keep their interval in milliseconds require.
pub fn interval_millis(interval: Duration) -> (r: Result<u64, TryFromIntError>)
    ensures
        r is Ok <==> millis_spec(interval) <= u64::MAX,
        r matches Ok(ms) ==> ms == millis_spec(interval),
{
    u64::try_from(duration_as_millis(interval))
}

/// The interval that a task keeps in milliseconds waits for.
pub fn interval_from_millis(ms: u64) -> (d: Duration)
    ensures
        duration_nanos(d) == ms * 1_000_000,
{
    duration_from_millis(ms)
}

/// Brings the interval that a running task uses up to date with the one stored
/// by the owner in milliseconds: it is replaced when it differs, and kept as it
/// is when it already matches.
pub fn adopt_interval(inner_interval: &mut Duration, stored_millis: u64)
    ensures
        duration_nanos(*final(inner_interval)) == stored_millis * 1_000_000,
        duration_nanos(*old(inner_interval)) == stored_millis * 1_000_000 ==> *final(inner_interval)
            == *old(inner_interval),
{
    let task_interval = duration_from_millis(stored_millis);
    if !durations_equal(*inner_interval, task_interval) {
        *inner_interval = task_interval;
    }
}

/// Reads the interval that the owner stored in milliseconds and adopts it.
pub fn apply_new_interval_if_exists(inner_interval: &mut Duration, task_interval: &Arc<AtomicU64>)
    ensures
        duration_nanos(*final(inner_interval)) % 1_000_000 == 0,
        duration_nanos(*final(inner_interval)) / 1_000_000 <= u64::MAX,
        duration_nanos(*old(inner_interval)) == duration_nanos(*final(inner_interval)) ==> *final(inner_interval)
            == *old(inner_interval),
{
    let stored = task_interval.load(std::sync::atomic::Ordering::Relaxed);
    adopt_interval(inner_interval, stored);
}

/// The shared millisecond store of a task's interval, and a second handle on
/// it: made when the interval fits in a `u64` of milliseconds, refused
/// otherwise.
pub fn new_intervals(interval: Duration) -> (r: Result<(Arc<AtomicU64>, Arc<AtomicU64>), TryFromIntError>)
    ensures
        r is Ok <==> millis_spec(interval) <= u64::MAX,
{
    let ms = interval_millis(interval)?;
    let shared_interval = Arc::new(AtomicU64::new(ms));
    let shared_interval_clone = shared_interval.clone();
    Ok((shared_interval, shared_interval_clone))
}

/// Stores a new polling rate in milliseconds, for the task to pick up on its
/// next iteration; refused, with nothing stored, when the rate does not fit in
/// a `u64` of milliseconds.
pub fn store_polling_rate(shared_interval: &AtomicU64, interval: Duration) -> (r: Result<
    (),
    TryFromIntError,
>)
    ensures
        r is Ok <==> millis_spec(interval) <= u64::MAX,
{
    let ms = interval_millis(interval)?;
    shared_interval.store(ms, std::sync::atomic::Ordering::Relaxed);
    Ok(())
}

/// A rate stored in whole milliseconds comes back unchanged: the task waits
/// for exactly the milliseconds that were stored.
pub proof fn lemma_whole_millis_round_trip(d: Duration, ms: u64)
    requires
        duration_nanos(d) == ms * 1_000_000,
    ensures
        millis_spec(d) == ms,
{
}

/// A new rate reaches the task truncated to whole milliseconds: once stored,
/// the interval the task adopts holds the rate's whole milliseconds.
pub proof fn lemma_rate_reaches_task(rate: Duration, adopted: Duration)
    requires
        millis_spec(rate) <= u64::MAX,
        duration_nanos(adopted) == millis_spec(rate) * 1_000_000,
    ensures
        millis_spec(adopted) == millis_spec(rate),
        duration_nanos(adopted) <= duration_nanos(rate) < duration_nanos(adopted) + 1_000_000,
{
}

/// Whether a requested rate can be stored: its whole milliseconds fit in a
/// `u64`.
pub open spec fn rate_accepted(d: Duration) -> bool {
    millis_spec(d) <= u64::MAX
}

/// The stored rate after one request to the setter: the request's whole
/// milliseconds when accepted, the stored rate unchanged when refused.
pub open spec fn next_stored(current: u64, requested: Duration) -> u64 {
    if rate_accepted(requested) {
        millis_spec(requested) as u64
    } else {
        current
    }
}

/// The stored rate after the given requests, made one after another.
pub open spec fn stored_after(current: u64, requests: Seq<Duration>) -> u64
    decreases requests.len(),
{
    if requests.len() == 0 {
        current
    } else {
        stored_after(next_stored(current, requests[0]), requests.drop_first())
    }
}

/// One more request acts on the rate that the earlier ones left.
proof fn lemma_stored_after_push(current: u64, requests: Seq<Duration>, d: Duration)
    ensures
        stored_after(current, requests.push(d)) == next_stored(stored_after(current, requests), d),
    decreases requests.len(),
{
    if requests.len() == 0 {
        assert(requests.push(d).drop_first() =~= Seq::<Duration>::empty());
        assert(requests.push(d)[0] == d);
        assert(stored_after(next_stored(current, d), Seq::<Duration>::empty()) == next_stored(current, d));
    } else {
        assert(requests.push(d)[0] == requests[0]);
        lemma_stored_after_push(next_stored(current, requests[0]), requests.drop_first(), d);
        assert(requests.push(d).drop_first() =~= requests.drop_first().push(d));
    }
}

/// The law of successive rate requests, over `stored_after`: the last
/// accepted request wins, a refused request changes nothing, and with no
/// accepted request the rate stays as it was. `PendingRate::set` moves its
/// rate by `next_stored`, so a run of `set` calls leaves exactly
/// `stored_after` of the requests; a rate kept in an atomic
/// (`store_polling_rate`) is not tied to this model.
pub proof fn lemma_last_accepted_rate_wins(current: u64, requests: Seq<Duration>)
    ensures
        requests.len() == 0 ==> stored_after(current, requests) == current,
        requests.len() > 0 && rate_accepted(requests.last()) ==> stored_after(current, requests)
            == millis_spec(requests.last()),
        requests.len() > 0 && !rate_accepted(requests.last()) ==> stored_after(current, requests)
            == stored_after(current, requests.drop_last()),
        (forall|i: int| 0 <= i < requests.len() ==> !rate_accepted(#[trigger] requests[i]))
            ==> stored_after(current, requests) == current,
    decreases requests.len(),
{
    if requests.len() > 0 {
        let init = requests.drop_last();
        assert(init.push(requests.last()) =~= requests);
        lemma_stored_after_push(current, init, requests.last());
        lemma_last_accepted_rate_wins(current, init);
        if forall|i: int| 0 <= i < requests.len() ==> !rate_accepted(#[trigger] requests[i]) {
            assert(!rate_accepted(requests[requests.len() - 1]));
            assert forall|i: int| 0 <= i < init.len() implies !rate_accepted(#[trigger] init[i]) by {
                assert(init[i] == requests[i]);
            }
        }
    }
}

/// The polling rate, in milliseconds, that a self-updating task's setter
/// changes and that the task waits for after each run.
pub struct PendingRate {
    millis: u64,
}

impl PendingRate {
    /// The rate in force, in milliseconds.
    pub closed spec fn stored(self) -> u64 {
        self.millis
    }

    /// The rate of `interval`, when its whole milliseconds fit in a `u64`.
    pub fn new(interval: Duration) -> (r: Result<PendingRate, TryFromIntError>)
        ensures
            r is Ok <==> rate_accepted(interval),
            r matches Ok(rate) ==> rate.stored() == millis_spec(interval),
    {
        let millis = interval_millis(interval)?;
        Ok(PendingRate { millis })
    }

    /// The setter: adopts the requested rate when its whole milliseconds fit
    /// in a `u64`, and otherwise refuses it and keeps the rate in force.
    pub fn set(&mut self, requested: Duration) -> (r: Result<(), TryFromIntError>)
        ensures
            r is Ok <==> rate_accepted(requested),
            final(self).stored() == next_stored(old(self).stored(), requested),
    {
        let millis = interval_millis(requested)?;
        self.millis = millis;
        Ok(())
    }

    /// The rate in force, in milliseconds.
    pub fn millis(&self) -> (ms: u64)
        ensures
            ms == self.stored(),
    {
        self.millis
    }

    /// The interval that the task waits for: exactly the rate in force.
    pub fn interval(&self) -> (d: Duration)
        ensures
            duration_nanos(d) == self.stored() * 1_000_000,
            millis_spec(d) == self.stored(),
    {
        interval_from_millis(self.millis)
    }
}

/// Setting the rate, then waiting: after an accepted request the wait lasts
/// exactly the request's whole milliseconds; after a refused one it lasts the
/// rate that was in force before.
pub proof fn lemma_set_then_wait(current: u64, requested: Duration, waited: Duration)
    requires
        duration_nanos(waited) == next_stored(current, requested) * 1_000_000,
    ensures
        rate_accepted(requested) ==> millis_spec(waited) == millis_spec(requested),
        rate_accepted(requested) ==> duration_nanos(waited) <= duration_nanos(requested)
            < duration_nanos(waited) + 1_000_000,
        !rate_accepted(requested) ==> millis_spec(waited) == current,
{
}

} // verus!
