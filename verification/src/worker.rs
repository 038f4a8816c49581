//! The refresh scheduler: decides, tick by tick, whether to stop, fetch or
//! sleep, and computes the next due time after a successful refresh cycle.
//! The surrounding loop (clock reads, sleeping, the actual network fetch) is
//! driven outside the library; every decision it takes is made here.

use vstd::prelude::*;

use crate::cache::Category;
use crate::cache::ImageLocation;
use crate::cache::ImgDb;

verus! {

/// Base fetch interval, in seconds: four hours.
pub const FETCH_INTERVAL: i64 = 4 * 3600;

/// Seconds in one day.
pub const DURATION_ONE_DAY: i64 = 86400;

/// Largest clock reading the scheduler accepts: one more day must still fit
/// in an `i64` timestamp.
pub const MAX_TIMESTAMP: i64 = i64::MAX - DURATION_ONE_DAY;

/// The start of the next calendar day after `now` (seconds since the epoch).
pub open spec fn spec_next_midnight(now: int) -> int {
    now - (now % (DURATION_ONE_DAY as int)) + (DURATION_ONE_DAY as int)
}

/// The due time computed at time `now`: the earlier of `now + FETCH_INTERVAL`
/// and the next midnight, and never earlier than `now` itself (a degenerate
/// wait is treated as zero, not negative).
pub open spec fn spec_next_due(now: int) -> int {
    let interval_due = now + (FETCH_INTERVAL as int);
    let midnight_due = spec_next_midnight(now);
    let due = if interval_due > midnight_due {
        midnight_due
    } else {
        interval_due
    };
    if due < now {
        now
    } else {
        due
    }
}

/// What the scheduler loop does on one tick.
#[derive(Clone, Copy, Debug, PartialEq, Eq, Structural)]
pub enum TickAction {
    /// The stop signal is set: leave the loop.
    Stop,
    /// The due time has arrived: run a full fetch cycle.
    Fetch,
    /// Nothing to do yet: sleep until the next tick.
    Sleep,
}

/// The decision taken at time `now` with the stop signal reading `stop`.
pub open spec fn spec_tick(w: Worker, stop: bool, now: i64) -> TickAction {
    if stop {
        TickAction::Stop
    } else if now >= w.next_fetch {
        TickAction::Fetch
    } else {
        TickAction::Sleep
    }
}

/// The refresh scheduler's own state: the next time a fetch is due.
/// The stop signal and the clock are owned by the surrounding loop and are
/// handed in as plain values each tick.
pub struct Worker {
    pub next_fetch: i64,
}

impl Worker {
    /// A new scheduler is due immediately: its first tick triggers a fetch.
    pub fn new(now: i64) -> (w: Worker)
        ensures
            w.next_fetch == now,
    {
        Worker { next_fetch: now }
    }

    /// One decision of the scheduler loop. The stop signal wins over
    /// everything else; otherwise a fetch is due exactly when the clock has
    /// reached the due time.
    pub fn tick(&self, stop: bool, now: i64) -> (a: TickAction)
        ensures
            a == spec_tick(*self, stop, now),
    {
        if stop {
            TickAction::Stop
        } else if now >= self.next_fetch {
            TickAction::Fetch
        } else {
            TickAction::Sleep
        }
    }

    /// After a successful cycle at time `now`, compute when the next fetch is
    /// due: the earlier of one base interval from now and the next midnight,
    /// with a degenerate (negative) wait clamped to zero.
    pub fn schedule_next_fetch(&mut self, now: i64)
        requires
            0 <= now <= MAX_TIMESTAMP,
        ensures
            final(self).next_fetch == spec_next_due(now as int),
    {
        let next_default_interval = now + FETCH_INTERVAL;
        let tomorrow_at_midnight = now - (now % DURATION_ONE_DAY) + DURATION_ONE_DAY;
        let due = if next_default_interval > tomorrow_at_midnight {
            tomorrow_at_midnight
        } else {
            next_default_interval
        };
        let wait = if due >= now {
            due - now
        } else {
            0
        };
        self.next_fetch = now + wait;
    }

    /// Reschedule from the process clock: read the time and apply the
    /// scheduling policy to it, clamping an out-of-range clock reading.
    pub fn schedule_next_fetch_now(&mut self)
        ensures
            exists|n: int| 0 <= n <= MAX_TIMESTAMP && final(self).next_fetch == spec_next_due(n),
    {
        let mut now = now_timestamp();
        if now < 0 {
            now = 0;
        }
        if now > MAX_TIMESTAMP {
            now = MAX_TIMESTAMP;
        }
        self.schedule_next_fetch(now);
        assert(final(self).next_fetch == spec_next_due(now as int));
    }

    /// Seconds left until the due time, clamped at zero: a due time already
    /// passed means no wait at all, never a negative one.
    pub fn wait_seconds(&self, now: i64) -> (w: u64)
        requires
            0 <= now,
        ensures
            w as int == if self.next_fetch > now {
                self.next_fetch - now
            } else {
                0
            },
    {
        if self.next_fetch > now {
            (self.next_fetch - now) as u64
        } else {
            0
        }
    }
}

/// Relies on chrono::Local::now, read as seconds since the Unix epoch.
/// Nothing is assumed of the value: the clock may read anything.
#[verifier::external_body]
fn now_timestamp() -> i64 {
    chrono::Local::now().timestamp()
}

/// The categories refreshed each cycle after the primary one. The list may
/// repeat a category; a repeat simply re-fetches and overwrites it.
pub fn greetings_to_fetch() -> (v: Vec<Category>)
    ensures
        v@ == seq![Category::BuonPomeriggio, Category::BuonPomeriggio, Category::Compleanno],
{
    let mut v: Vec<Category> = Vec::new();
    v.push(Category::BuonPomeriggio);
    v.push(Category::BuonPomeriggio);
    v.push(Category::Compleanno);
    proof {
        assert(v@ =~= seq![
            Category::BuonPomeriggio,
            Category::BuonPomeriggio,
            Category::Compleanno,
        ]);
    }
    v
}

/// One cycle's full fetch order: the primary category first, then the
/// configured list. A failure anywhere aborts the rest of the cycle.
pub fn fetch_plan() -> (v: Vec<Category>)
    ensures
        v@ == seq![
            Category::BuonGiorno,
            Category::BuonPomeriggio,
            Category::BuonPomeriggio,
            Category::Compleanno,
        ],
{
    let mut v: Vec<Category> = Vec::new();
    v.push(Category::BuonGiorno);
    v.push(Category::BuonPomeriggio);
    v.push(Category::BuonPomeriggio);
    v.push(Category::Compleanno);
    proof {
        assert(v@ =~= seq![
            Category::BuonGiorno,
            Category::BuonPomeriggio,
            Category::BuonPomeriggio,
            Category::Compleanno,
        ]);
    }
    v
}

/// Write one category's resolution result into the cache. A successful
/// resolution replaces that category's entry; a failed one changes nothing
/// at all, so the cache keeps whatever it held before.
pub fn store_fetch(db: &mut ImgDb, c: Category, r: Option<ImageLocation>) -> (ok: bool)
    ensures
        ok <==> r is Some,
        r matches Some(l) ==> final(db).spec_get(c) == Some(l) && (forall|c2: Category|
            c2 != c ==> final(db).spec_get(c2) == old(db).spec_get(c2)),
        r is None ==> *final(db) == *old(db),
{
    match r {
        Some(l) => {
            db.insert(c, l);
            true
        },
        None => false,
    }
}

/// Law: the due time returned at time `now` is at most one base interval
/// away, at most the next midnight, and is exactly the earlier of the two;
/// at an exact midnight the base interval wins, since the next midnight is a
/// whole day away.
pub proof fn lemma_schedule_bounds(now: int)
    requires
        0 <= now,
    ensures
        spec_next_due(now) <= now + FETCH_INTERVAL,
        spec_next_due(now) <= spec_next_midnight(now),
        spec_next_due(now) == if now + (FETCH_INTERVAL as int) <= spec_next_midnight(now) {
            now + (FETCH_INTERVAL as int)
        } else {
            spec_next_midnight(now)
        },
        now % (DURATION_ONE_DAY as int) == 0 ==> spec_next_due(now) == now + FETCH_INTERVAL,
        spec_next_due(now) >= now,
{
    assert(0 <= now % 86400 < 86400) by (nonlinear_arith)
        requires 0 <= now;
}

/// Law: a degenerate wait is treated as zero, never negative, and a due time
/// that has already passed makes the very next tick fetch at once.
pub proof fn lemma_zero_wait_refetches(w: Worker, now: i64)
    requires
        w.next_fetch <= now,
    ensures
        spec_tick(w, false, now) is Fetch,
{
}

/// Law: once the stop signal is set, the next tick decision is Stop, whatever
/// the clock says and however the fetch schedule stands.
pub proof fn lemma_stop_terminates(w: Worker, now: i64)
    ensures
        spec_tick(w, true, now) is Stop,
{
}

} // verus!

