//! Decisions of the operational logging runtime: the drop-notice rate limiter,
//! installation of the process-global `log` proxy, and detaching a runtime's
//! logger from that proxy without clearing a newer install.

use vstd::prelude::*;

verus! {

/// Minimum spacing, in milliseconds, between two dropped-record notices.
pub const DROP_REPORT_INTERVAL_MILLIS: u64 = 1000;

/// Whether a notice is due at `now` when the last one went out at `last`
/// (`None`: never). A clock that went backwards is read as no time elapsed.
pub open spec fn report_due(last: Option<u64>, now: u64) -> bool {
    match last {
        None => true,
        Some(l) => now >= l && now - l >= DROP_REPORT_INTERVAL_MILLIS,
    }
}

/// The last notice time after a run of calls at the given timestamps.
pub open spec fn last_report_after(start: Option<u64>, times: Seq<u64>) -> Option<u64>
    decreases times.len(),
{
    if times.len() == 0 {
        start
    } else {
        let prev = last_report_after(start, times.drop_last());
        if report_due(prev, times.last()) {
            Some(times.last())
        } else {
            prev
        }
    }
}

/// Whether the `i`-th call of a run that starts from `start` reports.
pub open spec fn reported_at(start: Option<u64>, times: Seq<u64>, i: int) -> bool {
    report_due(last_report_after(start, times.take(i)), times[i])
}

/// Rate limiter for notices about dropped log records: reports at once, then
/// at most once per [`DROP_REPORT_INTERVAL_MILLIS`].
pub struct DropNoticeRateLimiter {
    last_report_millis: Option<u64>,
}

impl View for DropNoticeRateLimiter {
    type V = Option<u64>;

    /// The time of the last notice, or `None` before the first.
    closed spec fn view(&self) -> Option<u64> {
        self.last_report_millis
    }
}

impl DropNoticeRateLimiter {
    /// A limiter that has reported nothing yet.
    pub fn new() -> (r: Self)
        ensures
            r@ is None,
    {
        DropNoticeRateLimiter { last_report_millis: None }
    }

    /// Whether a notice should be reported at `now_millis`; a report is recorded
    /// as the new last notice time.
    pub fn should_report(&mut self, now_millis: u64) -> (r: bool)
        ensures
            r == report_due(old(self)@, now_millis),
            final(self)@ == (if r {
                Some(now_millis)
            } else {
                old(self)@
            }),
    {
        let due = match self.last_report_millis {
            None => true,
            Some(last) => now_millis >= last && now_millis - last >= DROP_REPORT_INTERVAL_MILLIS,
        };
        if due {
            self.last_report_millis = Some(now_millis);
        }
        due
    }
}

proof fn lemma_last_report_bounds(times: Seq<u64>, i: int, k: int)
    requires
        0 <= i < k <= times.len(),
        reported_at(None, times, i),
    ensures
        last_report_after(None, times.take(k)) matches Some(t) && (t == times[i] || t
            >= times[i] + DROP_REPORT_INTERVAL_MILLIS),
    decreases k - i,
{
    if k == i + 1 {
        assert(times.take(k).drop_last() =~= times.take(i));
        assert(times.take(k).last() == times[i]);
    } else {
        lemma_last_report_bounds(times, i, k - 1);
        assert(times.take(k).drop_last() =~= times.take(k - 1));
        assert(times.take(k).last() == times[k - 1]);
    }
}

/// Notices are spaced: in any run of calls on a fresh limiter, whatever the
/// order of the timestamps, two reported calls `i < j` lie at least
/// [`DROP_REPORT_INTERVAL_MILLIS`] apart.
pub proof fn lemma_reports_spaced_by_interval(times: Seq<u64>, i: int, j: int)
    requires
        0 <= i < j < times.len(),
        reported_at(None, times, i),
        reported_at(None, times, j),
    ensures
        times[j] >= times[i] + DROP_REPORT_INTERVAL_MILLIS,
{
    lemma_last_report_bounds(times, i, j);
}

/// The limiter is live: a notice is due exactly when none went out yet, or when
/// at least [`DROP_REPORT_INTERVAL_MILLIS`] have passed since the last one,
/// however long ago that was.
pub proof fn lemma_report_due_after_interval(last: Option<u64>, now: u64)
    ensures
        last is None ==> report_due(last, now),
        last matches Some(l) ==> (report_due(last, now) <==> now as int >= l as int + 1000),
{
}

/// The first call on a fresh limiter always reports.
pub proof fn lemma_first_call_reports(times: Seq<u64>)
    requires
        times.len() > 0,
    ensures
        reported_at(None, times, 0),
{
    assert(times.take(0) =~= Seq::<u64>::empty());
}

/// An error of the relay runtime.
#[derive(Debug)]
pub enum FlowError {
    /// A process-global resource is already owned by someone else.
    AlreadyExists(String),
}

/// Whether installing the `log` proxy succeeds: when the facade took it, or when
/// the facade already holds this same proxy; otherwise another logger owns it.
pub fn proxy_install_outcome(init_succeeded: bool, proxy_already_installed: bool) -> (r: Result<
    (),
    FlowError,
>)
    ensures
        r is Ok <==> (init_succeeded || proxy_already_installed),
        r matches Err(FlowError::AlreadyExists(m)) ==> m@
            == "process-global log facade is already initialized by another logger; Relay logging cannot install its log proxy"@,
{
    if init_succeeded || proxy_already_installed {
        Ok(())
    } else {
        Err(
            FlowError::AlreadyExists(
                "process-global log facade is already initialized by another logger; Relay logging cannot install its log proxy".to_owned(),
            ),
        )
    }
}

/// The receiver that the proxy holds after a runtime with id `own` detaches:
/// a receiver that was taken out and is not `own` belongs to a later
/// configuration and goes back.
pub open spec fn receiver_after_detach(detached: Option<u64>, own: u64) -> Option<u64> {
    match detached {
        Some(d) => if d == own {
            None
        } else {
            Some(d)
        },
        None => None,
    }
}

/// Which logger to put back into the proxy after taking its receiver out while
/// tearing down the runtime `own`.
pub fn logger_to_reinstall(detached: Option<u64>, own: u64) -> (r: Option<u64>)
    ensures
        r == receiver_after_detach(detached, own),
{
    match detached {
        Some(d) => if d == own {
            None
        } else {
            Some(d)
        },
        None => None,
    }
}

/// Teardown never clears a newer install: when the proxy's receiver `a` was
/// swapped for a later runtime's `b`, tearing down `a` puts `b` back; tearing
/// down the runtime that is installed leaves the proxy without a receiver.
pub proof fn lemma_detach_keeps_newer_install(a: u64, b: u64)
    ensures
        a != b ==> receiver_after_detach(Some(b), a) == Some(b),
        receiver_after_detach(Some(a), a) is None,
        receiver_after_detach(None, a) is None,
{
}

} // verus!
