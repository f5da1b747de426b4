//! The telemetry scheduler: the cadence of each schedule entry, the number
//! of samples owed by a sensor, the schedule itself and the life cycle of
//! the service that runs it.

use vstd::prelude::*;
use crate::api::db::DataScheduleEntry;
use crate::api::features::lemma_same_bits;
use crate::api::features::SensorFeatures;
use crate::api::features::TEMPERATURE;

verus! {

/// Seconds between two samples that a sensor stores.
pub const SAVE_INTERVAL: i64 = 900;

/// Most samples that are fetched from a sensor at once.
pub const MAX_COUNT: i64 = 150;

/// Samples that are fetched beyond those owed, to cover the edges.
pub const MARGIN: i64 = 4;

/// How far into its interval an entry is at `now_ms`.
pub open spec fn phase(now_ms: u64, interval_ms: u64) -> int {
    now_ms as int % interval_ms as int
}

/// How long a loop sleeps before its next iteration: the interval less the
/// time that the last iteration took, and nothing if that took longer.
pub open spec fn sleep_ms(interval_ms: u64, last_ms: u64) -> int {
    if last_ms <= interval_ms {
        interval_ms - last_ms
    } else {
        0
    }
}

/// How far into its interval an entry is at `now_ms`. A loop that starts
/// at `now_ms` treats this as the duration of an iteration before its
/// first, so that all loops of one interval wake at the same moments.
pub fn phase_offset(now_ms: u64, interval_ms: u64) -> (p: u64)
    requires
        interval_ms > 0,
    ensures
        p == phase(now_ms, interval_ms),
        p < interval_ms,
{
    now_ms % interval_ms
}

/// What a loop does before an iteration.
#[derive(Debug, Clone, Copy, PartialEq, Eq, Structural)]
pub struct Pause {
    /// How long to sleep, in milliseconds.
    pub sleep_ms: u64,
    /// Whether the last iteration took longer than the interval, which is
    /// worth a warning.
    pub overran: bool,
}

/// The pause before the next iteration of a loop of `interval_ms` whose
/// last iteration took `last_ms`.
pub fn next_pause(interval_ms: u64, last_ms: u64) -> (p: Pause)
    ensures
        p.sleep_ms == sleep_ms(interval_ms, last_ms),
        p.overran == (last_ms > interval_ms),
{
    if last_ms <= interval_ms {
        Pause { sleep_ms: interval_ms - last_ms, overran: false }
    } else {
        Pause { sleep_ms: 0, overran: true }
    }
}

/// The pause before the first iteration of a loop that starts at `now_ms`.
pub fn first_pause(now_ms: u64, interval_ms: u64) -> (p: Pause)
    requires
        interval_ms > 0,
    ensures
        p.sleep_ms == interval_ms - phase(now_ms, interval_ms),
        !p.overran,
        0 < p.sleep_ms <= interval_ms,
{
    next_pause(interval_ms, phase_offset(now_ms, interval_ms))
}

/// The first pause of a loop ends on a multiple of its interval, whenever
/// the loop starts; and while no iteration overruns, iteration and pause
/// together take exactly one interval, so that the cadence does not drift.
pub proof fn lemma_cadence(now_ms: u64, interval_ms: u64, last_ms: u64)
    requires
        interval_ms > 0,
    ensures
        (now_ms + (interval_ms - phase(now_ms, interval_ms))) % (interval_ms as int) == 0,
        last_ms <= interval_ms ==> last_ms + sleep_ms(interval_ms, last_ms) == interval_ms,
        last_ms > interval_ms ==> sleep_ms(interval_ms, last_ms) == 0,
{
    let n = now_ms as int;
    let m = interval_ms as int;
    vstd::arithmetic::div_mod::lemma_fundamental_div_mod(n, m);
    assert(n + (m - n % m) == m * (n / m + 1)) by (nonlinear_arith)
        requires
            n == m * (n / m) + n % m,
    ;
    vstd::arithmetic::div_mod::lemma_mod_multiples_basic(n / m + 1, m);
    assert(m * (n / m + 1) == (n / m + 1) * m) by (nonlinear_arith);
}

/// The number of samples to ask a sensor for at `now_s` when the newest
/// stored sample is from `last_s` (both in seconds since the Unix epoch,
/// `last_s` zero where none is stored): one per save interval since then,
/// plus the margin, and at most the cap. A newest sample from the future
/// gives a number that is not positive.
pub open spec fn owed(now_s: i64, last_s: u64) -> int {
    let since = now_s - last_s;
    let whole = if since >= 0 {
        since / (SAVE_INTERVAL as int)
    } else {
        -((-since) / (SAVE_INTERVAL as int))
    };
    if whole + MARGIN < MAX_COUNT {
        whole + MARGIN
    } else {
        MAX_COUNT as int
    }
}

/// The number of samples to ask a sensor for.
pub fn samples_owed(now_s: i64, last_s: u64) -> (count: i64)
    ensures
        count == owed(now_s, last_s),
        count <= MAX_COUNT,
{
    let since: i128 = now_s as i128 - last_s as i128;
    let whole: i128 = if since >= 0 {
        since / (SAVE_INTERVAL as i128)
    } else {
        -((-since) / (SAVE_INTERVAL as i128))
    };
    if whole + (MARGIN as i128) < MAX_COUNT as i128 {
        (whole + MARGIN as i128) as i64
    } else {
        MAX_COUNT
    }
}

/// Whether an entry asks for the temperature readings to be collected.
pub fn collects_temperature(entry: &DataScheduleEntry) -> (b: bool)
    ensures
        b == (entry.features@ & TEMPERATURE == TEMPERATURE),
{
    entry.features.contains(SensorFeatures::temperature())
}

/// The position of the entry with these features at or after `from`.
pub open spec fn position(entries: Seq<DataScheduleEntry>, features: u32, from: int) -> Option<int>
    decreases entries.len() - from,
{
    if from < 0 || from >= entries.len() {
        None
    } else if entries[from].features@ == features {
        Some(from)
    } else {
        position(entries, features, from + 1)
    }
}

/// The schedule after an entry was put into it: an entry with the same
/// features gets the new interval, a new feature combination is appended.
pub open spec fn upsert(entries: Seq<DataScheduleEntry>, entry: DataScheduleEntry) -> Seq<
    DataScheduleEntry,
> {
    match position(entries, entry.features@, 0) {
        Some(i) => entries.update(i, entry),
        None => entries.push(entry),
    }
}

/// What putting an entry returns: the entry if the schedule changed by it,
/// nothing if the schedule held it already with the same interval.
pub open spec fn upsert_result(entries: Seq<DataScheduleEntry>, entry: DataScheduleEntry)
    -> Option<DataScheduleEntry> {
    match position(entries, entry.features@, 0) {
        Some(i) => if entries[i].interval_ms == entry.interval_ms {
            None
        } else {
            Some(entry)
        },
        None => Some(entry),
    }
}

/// No two entries have the same features.
pub open spec fn distinct(entries: Seq<DataScheduleEntry>) -> bool {
    forall|i: int, j: int|
        0 <= i < j < entries.len() ==> (#[trigger] entries[i]).features@ != (
        #[trigger] entries[j]).features@
}

/// `position` finds the first entry with the features, and nothing only if
/// there is none.
pub proof fn lemma_position(entries: Seq<DataScheduleEntry>, features: u32, from: int)
    requires
        0 <= from,
    ensures
        match position(entries, features, from) {
            Some(i) => from <= i < entries.len() && entries[i].features@ == features
                && forall|j: int| from <= j < i ==> (#[trigger] entries[j]).features@ != features,
            None => forall|j: int|
                from <= j < entries.len() ==> (#[trigger] entries[j]).features@ != features,
        },
    decreases entries.len() - from,
{
    if from < entries.len() && entries[from].features@ != features {
        lemma_position(entries, features, from + 1);
    }
}

/// The polling schedule: one cadence per feature combination.
pub struct DataSchedule {
    entries: Vec<DataScheduleEntry>,
}

impl View for DataSchedule {
    type V = Seq<DataScheduleEntry>;

    closed spec fn view(&self) -> Seq<DataScheduleEntry> {
        self.entries@
    }
}

impl DataSchedule {
    /// No feature combination occurs twice.
    pub open spec fn wf(self) -> bool {
        distinct(self@)
    }

    /// The empty schedule.
    pub fn new() -> (s: DataSchedule)
        ensures
            s@ == Seq::<DataScheduleEntry>::empty(),
            s.wf(),
    {
        DataSchedule { entries: Vec::new() }
    }

    /// The number of entries.
    pub fn len(&self) -> (n: usize)
        ensures
            n == self@.len(),
    {
        self.entries.len()
    }

    /// The entries, in the order in which their features first came in.
    pub fn entries(&self) -> (e: &Vec<DataScheduleEntry>)
        ensures
            e@ == self@,
    {
        &self.entries
    }

    fn find(&self, features: SensorFeatures) -> (r: Option<usize>)
        ensures
            match r {
                Some(i) => position(self@, features@, 0) == Some(i as int) && i < self@.len(),
                None => position(self@, features@, 0).is_none(),
            },
    {
        let n = self.entries.len();
        let mut i: usize = 0;
        while i < n
            invariant
                i <= n == self@.len(),
                position(self@, features@, 0) == position(self@, features@, i as int),
            decreases n - i,
        {
            if self.entries[i].features.bits() == features.bits() {
                return Some(i);
            }
            i += 1;
        }
        None
    }

    /// Puts an entry into the schedule. The entry comes back if the
    /// schedule changed by it, which calls for a restart of the scheduler;
    /// putting an entry that is there already, with the same interval,
    /// changes nothing and returns nothing.
    pub fn create_entry(&mut self, entry: DataScheduleEntry) -> (r: Option<DataScheduleEntry>)
        requires
            old(self).wf(),
        ensures
            final(self).wf(),
            r == upsert_result(old(self)@, entry),
            final(self)@ == upsert(old(self)@, entry),
            r.is_none() ==> final(self)@ == old(self)@,
    {
        proof {
            lemma_position(self@, entry.features@, 0);
        }
        match self.find(entry.features) {
            Some(i) => {
                if self.entries[i].interval_ms == entry.interval_ms {
                    proof {
                        lemma_same_bits(self@[i as int].features, entry.features);
                    }
                    assert(self@.update(i as int, entry) =~= self@);
                    None
                } else {
                    self.entries.set(i, entry);
                    Some(entry)
                }
            },
            None => {
                self.entries.push(entry);
                Some(entry)
            },
        }
    }

    /// Takes an entry out of the schedule. Returns whether the schedule
    /// held exactly this entry, features and interval, which calls for a
    /// restart of the scheduler.
    pub fn delete_entry(&mut self, entry: DataScheduleEntry) -> (removed: bool)
        requires
            old(self).wf(),
        ensures
            final(self).wf(),
            removed == old(self)@.contains(entry),
            removed ==> final(self)@ == old(self)@.remove(
                position(old(self)@, entry.features@, 0).unwrap(),
            ),
            !removed ==> final(self)@ == old(self)@,
    {
        proof {
            lemma_position(self@, entry.features@, 0);
        }
        match self.find(entry.features) {
            Some(i) => {
                if self.entries[i].interval_ms == entry.interval_ms {
                    proof {
                        lemma_same_bits(self@[i as int].features, entry.features);
                    }
                    assert(self@[i as int] == entry);
                    self.entries.remove(i);
                    true
                } else {
                    assert(!self@.contains(entry)) by {
                        if self@.contains(entry) {
                            let j = choose|j: int| 0 <= j < self@.len() && self@[j] == entry;
                            assert(self@[j].features@ == self@[i as int].features@);
                        }
                    }
                    false
                }
            },
            None => {
                assert(!self@.contains(entry)) by {
                    if self@.contains(entry) {
                        let j = choose|j: int| 0 <= j < self@.len() && self@[j] == entry;
                        assert(self@[j].features@ == entry.features@);
                    }
                }
                false
            },
        }
    }
}

/// Whether the scheduler has to restart after an entry was put into the
/// schedule: only if the schedule changed by it.
pub fn restart_needed(created: &Option<DataScheduleEntry>) -> (b: bool)
    ensures
        b == created.is_some(),
{
    created.is_some()
}

/// Putting an entry is idempotent: a second put of the same features and
/// interval changes nothing, returns nothing and so calls for no restart,
/// whereas a put with another interval for the same features replaces the
/// interval and returns the entry.
pub proof fn lemma_create_entry_idempotent(
    entries: Seq<DataScheduleEntry>,
    entry: DataScheduleEntry,
    other_ms: u64,
)
    requires
        distinct(entries),
        other_ms != entry.interval_ms,
    ensures
        upsert(upsert(entries, entry), entry) == upsert(entries, entry),
        upsert_result(upsert(entries, entry), entry).is_none(),
        upsert_result(
            upsert(entries, entry),
            DataScheduleEntry { features: entry.features, interval_ms: other_ms },
        ) == Some(DataScheduleEntry { features: entry.features, interval_ms: other_ms }),
        upsert(
            upsert(entries, entry),
            DataScheduleEntry { features: entry.features, interval_ms: other_ms },
        ).contains(DataScheduleEntry { features: entry.features, interval_ms: other_ms }),
        !upsert(
            upsert(entries, entry),
            DataScheduleEntry { features: entry.features, interval_ms: other_ms },
        ).contains(entry),
        distinct(upsert(entries, entry)),
{
    let once = upsert(entries, entry);
    let changed = DataScheduleEntry { features: entry.features, interval_ms: other_ms };
    lemma_position(entries, entry.features@, 0);
    lemma_position(once, entry.features@, 0);
    let at = position(once, entry.features@, 0);
    match position(entries, entry.features@, 0) {
        Some(i) => {
            assert(once[i] == entry);
        },
        None => {
            assert(once[entries.len() as int] == entry);
        },
    }
    let k = at.unwrap();
    assert(once[k].features@ == entry.features@);
    assert(once[k] == entry) by {
        match position(entries, entry.features@, 0) {
            Some(i) => {
                if k != i {
                    assert(once[i].features@ == once[k].features@);
                }
            },
            None => {
                if k != entries.len() {
                    assert(once[k] == entries[k]);
                }
            },
        }
    }
    assert(once.update(k, entry) =~= once);
    let twice = upsert(once, changed);
    assert(twice == once.update(k, changed));
    assert(twice[k] == changed);
    assert(!twice.contains(entry)) by {
        if twice.contains(entry) {
            let j = choose|j: int| 0 <= j < twice.len() && twice[j] == entry;
            if j != k {
                assert(once[j] == entry);
                if j < k {
                    assert(once[j].features@ != once[k].features@);
                } else {
                    assert(once[k].features@ != once[j].features@);
                }
            }
        }
    }
}

/// The life cycle of the scheduler service: its loops run for one loaded
/// schedule at a time.
#[derive(Debug, Clone, Copy, PartialEq, Eq, Structural)]
pub enum ServicePhase {
    /// No loop runs.
    Stopped,
    /// The loops of the current schedule run.
    Running,
    /// The loops were told to stop and have not all ended yet.
    Stopping,
}

/// What the caller of a restart has to do next.
#[derive(Debug, Clone, Copy, PartialEq, Eq, Structural)]
pub enum RestartStep {
    /// Abort the running task and wait until it has ended, then report
    /// that with `stopped`.
    AbortAndAwait,
    /// Load the schedule and start the loops.
    Start,
}

impl ServicePhase {
    /// A restart begins: a running service must first be stopped, and only
    /// once its task has ended may the new loops start.
    pub fn restart(&mut self) -> (step: RestartStep)
        ensures
            step == (if *old(self) == ServicePhase::Stopped {
                RestartStep::Start
            } else {
                RestartStep::AbortAndAwait
            }),
            *final(self) == (if *old(self) == ServicePhase::Stopped {
                ServicePhase::Stopped
            } else {
                ServicePhase::Stopping
            }),
    {
        match self {
            ServicePhase::Stopped => RestartStep::Start,
            _ => {
                *self = ServicePhase::Stopping;
                RestartStep::AbortAndAwait
            },
        }
    }

    /// The aborted task has ended.
    pub fn stopped(&mut self)
        ensures
            *final(self) == ServicePhase::Stopped,
    {
        *self = ServicePhase::Stopped;
    }

    /// The loops of a freshly loaded schedule start. Fails, changing
    /// nothing, while older loops may still run: two sets of loops never
    /// overlap.
    pub fn start(&mut self) -> (ok: bool)
        ensures
            ok == (*old(self) == ServicePhase::Stopped),
            *final(self) == (if ok {
                ServicePhase::Running
            } else {
                *old(self)
            }),
    {
        match self {
            ServicePhase::Stopped => {
                *self = ServicePhase::Running;
                true
            },
            _ => false,
        }
    }
}

} // verus!
