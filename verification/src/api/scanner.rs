//! The subnet scanner as a state machine: a scan is started, 256 probes
//! report back in any order, and the finished scan becomes the last result.
//! The tasks that probe the hosts run elsewhere and report here.

use vstd::prelude::*;
use vstd::pervasive::cloned;
use vstd::string::StringExecFns;
use crate::text::decimal_chars;
use crate::text::u64_to_string;

verus! {

/// Number of hosts that one scan probes: every suffix of a /24 prefix.
pub const SCAN_TOTAL: u32 = 256;

/// How long a discovery probe waits for a reply, in milliseconds.
pub const PROBE_TIMEOUT_MS: u64 = 200;

/// The error of a scan on a machine without a usable network interface.
pub const NO_NETWORK: &'static str = "No network to scan!";

/// `b` has a clone of every item of `a`, in order.
pub open spec fn same_items<T: Clone>(a: Seq<T>, b: Seq<T>) -> bool {
    &&& a.len() == b.len()
    &&& forall|i: int| 0 <= i < a.len() ==> cloned::<T>(#[trigger] a[i], b[i])
}

/// The progress of the scan in flight.
#[derive(Debug)]
pub struct ScanProgress<T> {
    pub progress: u32,
    pub scanned: Vec<T>,
    pub total: u32,
    pub target: String,
}

impl<T> ScanProgress<T> {
    /// Never more probes are counted than hosts exist, nor more sensors
    /// found than probes were counted.
    pub open spec fn wf(self) -> bool {
        &&& self.total == SCAN_TOTAL
        &&& self.progress <= self.total
        &&& self.scanned@.len() <= self.progress
    }

    /// The progress of a scan of `target` that has just begun.
    pub fn new(target: String) -> (p: ScanProgress<T>)
        ensures
            p.progress == 0,
            p.total == SCAN_TOTAL,
            p.target == target,
            p.scanned@ == Seq::<T>::empty(),
            p.wf(),
    {
        ScanProgress { progress: 0, scanned: Vec::new(), total: SCAN_TOTAL, target }
    }

    /// One probe has finished: it is counted, and the sensor it found, if
    /// any, joins the list.
    pub fn record(&mut self, found: Option<T>)
        requires
            old(self).wf(),
            old(self).progress < old(self).total,
        ensures
            final(self).wf(),
            final(self).progress == old(self).progress + 1,
            final(self).total == old(self).total,
            final(self).target == old(self).target,
            final(self).scanned@ == (match found {
                Some(s) => old(self).scanned@.push(s),
                None => old(self).scanned@,
            }),
    {
        match found {
            Some(s) => {
                self.scanned.push(s);
            },
            None => {},
        }
        self.progress = self.progress + 1;
    }

    /// Whether every host has been probed.
    pub fn is_complete(&self) -> (b: bool)
        ensures
            b == (self.progress == self.total),
    {
        self.progress == self.total
    }

    /// The progress in words: "Scanned 12 of 256 hosts".
    pub fn text(&self) -> (s: String)
        ensures
            s@ == "Scanned "@ + decimal_chars(self.progress as nat) + " of "@ + decimal_chars(
                self.total as nat,
            ) + " hosts"@,
    {
        let mut s = String::from_str("Scanned ");
        s.append(u64_to_string(self.progress as u64).as_str());
        s.append(" of ");
        s.append(u64_to_string(self.total as u64).as_str());
        s.append(" hosts");
        s
    }
}

impl<T: Clone> Clone for ScanProgress<T> {
    fn clone(&self) -> (p: ScanProgress<T>)
        ensures
            p.progress == self.progress,
            p.total == self.total,
            p.target == self.target,
            same_items(self.scanned@, p.scanned@),
    {
        ScanProgress {
            progress: self.progress,
            scanned: self.scanned.clone(),
            total: self.total,
            target: self.target.clone(),
        }
    }
}

/// A completed scan: what it found, when it ended (milliseconds since the
/// Unix epoch) and how long it took (milliseconds).
#[derive(Debug)]
pub struct ScannerResult<T> {
    pub scanned: Vec<T>,
    pub created_ms: i64,
    pub duration_ms: u64,
}

impl<T: Clone> Clone for ScannerResult<T> {
    fn clone(&self) -> (r: ScannerResult<T>)
        ensures
            r.created_ms == self.created_ms,
            r.duration_ms == self.duration_ms,
            same_items(self.scanned@, r.scanned@),
    {
        ScannerResult {
            scanned: self.scanned.clone(),
            created_ms: self.created_ms,
            duration_ms: self.duration_ms,
        }
    }
}

/// The date and time of a moment given in milliseconds since the Unix
/// epoch, in UTC, as `2024-01-31 23:59:59 UTC`; nothing for a moment that
/// the calendar does not reach.
pub uninterp spec fn utc_text(millis: i64) -> Option<Seq<char>>;

/// `chrono::DateTime::from_timestamp_millis`, then `format` with
/// `%Y-%m-%d %H:%M:%S UTC`.
#[verifier::external_body]
fn format_utc(millis: i64) -> (r: Option<String>)
    ensures
        match r {
            Some(s) => utc_text(millis) == Some(s@),
            None => utc_text(millis).is_none(),
        },
{
    chrono::DateTime::from_timestamp_millis(millis).map(
        |t| t.format("%Y-%m-%d %H:%M:%S UTC").to_string(),
    )
}

/// The digits of `n`, with zeros in front up to `width` characters.
pub open spec fn padded(n: nat, width: nat) -> Seq<char> {
    let digits = decimal_chars(n);
    if digits.len() >= width {
        digits
    } else {
        Seq::new((width - digits.len()) as nat, |i: int| '0') + digits
    }
}

/// A duration in milliseconds as minutes, seconds and milliseconds:
/// `mm:ss.mmm`, the minutes not limited to two digits.
pub open spec fn duration_text(ms: u64) -> Seq<char> {
    padded((ms / 60000) as nat, 2) + ":"@ + padded(((ms / 1000) % 60) as nat, 2) + "."@ + padded(
        (ms % 1000) as nat,
        3,
    )
}

/// Appends `n` to `out`, with zeros in front up to `width` characters.
#[verifier::loop_isolation(false)]
fn append_padded(out: &mut String, n: u64, width: usize)
    ensures
        final(out)@ == old(out)@ + padded(n as nat, width as nat),
{
    let digits = u64_to_string(n);
    let len = digits.as_str().unicode_len();
    let mut i: usize = len;
    proof {
        reveal_strlit("0");
    }
    while i < width
        invariant
            len <= i,
            len == digits@.len(),
            len < width ==> i <= width,
            len >= width ==> i == len,
            out@ == old(out)@ + Seq::new((i - len) as nat, |j: int| '0'),
        decreases width - i,
    {
        out.append("0");
        assert("0"@ =~= seq!['0']);
        assert(out@ =~= old(out)@ + Seq::new((i + 1 - len) as nat, |j: int| '0'));
        i += 1;
    }
    let ghost zeros = Seq::new((i - len) as nat, |j: int| '0');
    out.append(digits.as_str());
    assert(len >= width ==> zeros + digits@ =~= digits@);
    assert(out@ =~= old(out)@ + (zeros + digits@));
    assert(zeros + digits@ == padded(n as nat, width as nat));
}

impl<T> ScannerResult<T> {
    /// When the scan ended, in UTC; nothing if the calendar does not reach
    /// that moment.
    pub fn created_display(&self) -> (r: Option<String>)
        ensures
            match r {
                Some(s) => utc_text(self.created_ms) == Some(s@),
                None => utc_text(self.created_ms).is_none(),
            },
    {
        format_utc(self.created_ms)
    }

    /// How long the scan took, as `mm:ss.mmm`.
    pub fn duration_display(&self) -> (s: String)
        ensures
            s@ == duration_text(self.duration_ms),
    {
        let ms = self.duration_ms;
        let mut s = String::new();
        append_padded(&mut s, ms / 60000, 2);
        s.append(":");
        append_padded(&mut s, (ms / 1000) % 60, 2);
        s.append(".");
        append_padded(&mut s, ms % 1000, 3);
        assert(s@ =~= duration_text(ms));
        s
    }
}

/// What the scanner reports when asked.
#[derive(Debug)]
pub enum ScannerState<T> {
    /// No scan is in flight; the last completed scan, if there was one.
    Idle(Option<ScannerResult<T>>),
    /// A scan is in flight.
    Scanning(ScanProgress<T>),
    /// The scan could not run.
    Error(String),
}

impl<T: Clone> ScannerState<T> {
    /// The sensors to show: those of the last result, or those found so
    /// far by the scan in flight.
    pub fn scanned(&self) -> (v: Vec<T>)
        ensures
            match self {
                ScannerState::Idle(Some(result)) => same_items(result.scanned@, v@),
                ScannerState::Scanning(progress) => same_items(progress.scanned@, v@),
                _ => v@.len() == 0,
            },
    {
        match self {
            ScannerState::Idle(Some(result)) => result.scanned.clone(),
            ScannerState::Scanning(progress) => progress.scanned.clone(),
            _ => Vec::new(),
        }
    }
}

/// Whether a local IPv4 address names a network that can be scanned:
/// neither a loopback address nor the unspecified one.
pub open spec fn usable(octets: [u8; 4]) -> bool {
    octets[0] != 127 && !(octets[0] == 0 && octets[1] == 0 && octets[2] == 0 && octets[3] == 0)
}

/// The /24 prefix of an address as text: its first three numbers, each
/// followed by a dot.
pub open spec fn prefix_text(octets: [u8; 4]) -> Seq<char> {
    decimal_chars(octets[0] as nat) + "."@ + decimal_chars(octets[1] as nat) + "."@
        + decimal_chars(octets[2] as nat) + "."@
}

/// The first usable address at or after position `from`.
pub open spec fn first_usable(addresses: Seq<[u8; 4]>, from: int) -> Option<[u8; 4]>
    decreases addresses.len() - from,
{
    if from < 0 || from >= addresses.len() {
        None
    } else if usable(addresses[from]) {
        Some(addresses[from])
    } else {
        first_usable(addresses, from + 1)
    }
}

/// Whether a local IPv4 address names a network that can be scanned.
pub fn is_usable(octets: &[u8; 4]) -> (b: bool)
    ensures
        b == usable(*octets),
{
    octets[0] != 127 && !(octets[0] == 0 && octets[1] == 0 && octets[2] == 0 && octets[3] == 0)
}

/// The /24 prefix of an address, as text.
pub fn subnet_prefix(octets: &[u8; 4]) -> (s: String)
    ensures
        s@ == prefix_text(*octets),
{
    let mut s = u64_to_string(octets[0] as u64);
    s.append(".");
    s.append(u64_to_string(octets[1] as u64).as_str());
    s.append(".");
    s.append(u64_to_string(octets[2] as u64).as_str());
    s.append(".");
    s
}

/// The prefix to scan: that of the first usable address among the local
/// ones, if there is any.
pub fn pick_target(addresses: &[[u8; 4]]) -> (t: Option<String>)
    ensures
        match (t, first_usable(addresses@, 0)) {
            (Some(s), Some(a)) => s@ == prefix_text(a),
            (None, None) => true,
            _ => false,
        },
{
    let n = addresses.len();
    let mut i: usize = 0;
    while i < n
        invariant
            i <= n == addresses@.len(),
            first_usable(addresses@, 0) == first_usable(addresses@, i as int),
        decreases n - i,
    {
        if is_usable(&addresses[i]) {
            return Some(subnet_prefix(&addresses[i]));
        }
        i += 1;
    }
    None
}

/// The host that the probe with this suffix addresses: the prefix followed
/// by the suffix.
pub fn probe_host(prefix: &str, suffix: u8) -> (host: String)
    ensures
        host@ == prefix@ + decimal_chars(suffix as nat),
{
    let mut host = String::from_str(prefix);
    host.append(u64_to_string(suffix as u64).as_str());
    host
}

/// Mathematical value of a completed scan.
pub struct ResultView<T> {
    pub scanned: Seq<T>,
    pub created_ms: i64,
    pub duration_ms: u64,
}

/// The driving task of a scan, as the service sees it.
pub enum TaskView<T> {
    /// There is none.
    Absent,
    /// It waits for the probes.
    Running { started_ms: i64 },
    /// It has ended with a result that nobody has looked at yet.
    Finished(ResultView<T>),
    /// It has ended with an error that nobody has looked at yet.
    Failed(Seq<char>),
}

/// Mathematical value of a [`ScannerService`].
pub struct ScannerView<T> {
    pub last: Option<ResultView<T>>,
    pub task: TaskView<T>,
    pub progress: nat,
    pub total: nat,
    pub target: Seq<char>,
    pub scanned: Seq<T>,
}

/// The duration from `started_ms` to `now_ms`; zero if the clock went back.
pub open spec fn elapsed(started_ms: i64, now_ms: i64) -> u64 {
    if now_ms >= started_ms {
        (now_ms - started_ms) as u64
    } else {
        0
    }
}

impl<T> ScannerView<T> {
    /// At most `total == 256` probes are counted, and no more sensors are
    /// listed than probes were counted.
    pub open spec fn wf(self) -> bool {
        &&& self.total == SCAN_TOTAL
        &&& self.progress <= self.total
        &&& self.scanned.len() <= self.progress
    }

    /// A scan is in flight.
    pub open spec fn running(self) -> bool {
        self.task is Running
    }

    /// After `init`: with no task present a scan of `target` starts from
    /// zero, or fails at once where there is no network; with a task
    /// present nothing changes.
    pub open spec fn init(self, target: Option<Seq<char>>, now_ms: i64) -> Self {
        if self.task is Absent {
            match target {
                Some(t) => ScannerView {
                    last: self.last,
                    task: TaskView::Running { started_ms: now_ms },
                    progress: 0,
                    total: SCAN_TOTAL as nat,
                    target: t,
                    scanned: Seq::empty(),
                },
                None => ScannerView {
                    last: self.last,
                    task: TaskView::Failed(NO_NETWORK@),
                    progress: 0,
                    total: SCAN_TOTAL as nat,
                    target: Seq::empty(),
                    scanned: Seq::empty(),
                },
            }
        } else {
            self
        }
    }

    /// After a probe has reported: it is counted, and what it found is
    /// listed, if a scan is in flight that still waits for probes.
    pub open spec fn probe(self, found: Option<T>) -> Self {
        if self.running() && self.progress < self.total {
            ScannerView {
                progress: self.progress + 1,
                scanned: match found {
                    Some(s) => self.scanned.push(s),
                    None => self.scanned,
                },
                ..self
            }
        } else {
            self
        }
    }

    /// After the driving task has seen every probe end at `now_ms`.
    pub open spec fn finish(self, now_ms: i64) -> Self {
        match self.task {
            TaskView::Running { started_ms } => if self.progress == self.total {
                ScannerView {
                    task: TaskView::Finished(
                        ResultView {
                            scanned: self.scanned,
                            created_ms: now_ms,
                            duration_ms: elapsed(started_ms, now_ms),
                        },
                    ),
                    scanned: Seq::empty(),
                    ..self
                }
            } else {
                self
            },
            _ => self,
        }
    }

    /// After `cancel`: no task is present; the last result stays.
    pub open spec fn cancel(self) -> Self {
        ScannerView { task: TaskView::Absent, ..self }
    }

    /// After `state`: a finished task has become the last result, a failed
    /// one is forgotten.
    pub open spec fn observe(self) -> Self {
        match self.task {
            TaskView::Finished(result) => ScannerView {
                last: Some(result),
                task: TaskView::Absent,
                ..self
            },
            TaskView::Failed(_) => ScannerView { task: TaskView::Absent, ..self },
            _ => self,
        }
    }
}

/// `r` is a copy of the completed scan `v`.
pub open spec fn shows_result<T: Clone>(r: ScannerResult<T>, v: ResultView<T>) -> bool {
    &&& r.created_ms == v.created_ms
    &&& r.duration_ms == v.duration_ms
    &&& same_items(v.scanned, r.scanned@)
}

/// `s` is what a scanner in the state `v` reports.
pub open spec fn shows<T: Clone>(s: ScannerState<T>, v: ScannerView<T>) -> bool {
    match v.task {
        TaskView::Absent => match (s, v.last) {
            (ScannerState::Idle(Some(r)), Some(last)) => shows_result(r, last),
            (ScannerState::Idle(None), None) => true,
            _ => false,
        },
        TaskView::Finished(result) => match s {
            ScannerState::Idle(Some(r)) => shows_result(r, result),
            _ => false,
        },
        TaskView::Failed(e) => match s {
            ScannerState::Error(m) => m@ == e,
            _ => false,
        },
        TaskView::Running { started_ms } => match s {
            ScannerState::Scanning(p) => p.progress == v.progress && p.total == v.total
                && p.target@ == v.target && same_items(v.scanned, p.scanned@),
            _ => false,
        },
    }
}

enum ScanTask<T> {
    Running { started_ms: i64 },
    Finished(ScannerResult<T>),
    Failed(String),
}

/// The scanner: at most one scan in flight, and the result of the last
/// completed one.
pub struct ScannerService<T> {
    pub last_result: Option<ScannerResult<T>>,
    handle: Option<ScanTask<T>>,
    progress: ScanProgress<T>,
}

impl<T> View for ScannerService<T> {
    type V = ScannerView<T>;

    closed spec fn view(&self) -> ScannerView<T> {
        ScannerView {
            last: match self.last_result {
                Some(r) => Some(
                    ResultView {
                        scanned: r.scanned@,
                        created_ms: r.created_ms,
                        duration_ms: r.duration_ms,
                    },
                ),
                None => None,
            },
            task: match self.handle {
                None => TaskView::Absent,
                Some(ScanTask::Running { started_ms }) => TaskView::Running { started_ms },
                Some(ScanTask::Finished(r)) => TaskView::Finished(
                    ResultView {
                        scanned: r.scanned@,
                        created_ms: r.created_ms,
                        duration_ms: r.duration_ms,
                    },
                ),
                Some(ScanTask::Failed(e)) => TaskView::Failed(e@),
            },
            progress: self.progress.progress as nat,
            total: self.progress.total as nat,
            target: self.progress.target@,
            scanned: self.progress.scanned@,
        }
    }
}

impl<T> ScannerService<T> {
    /// A scanner that has never scanned.
    pub fn new() -> (s: ScannerService<T>)
        ensures
            s@.wf(),
            s@.task is Absent,
            s@.last.is_none(),
            s@.progress == 0,
    {
        ScannerService { last_result: None, handle: None, progress: ScanProgress::new(String::new()) }
    }

    /// Starts a scan unless one is in flight or awaits a look at its end.
    /// `target` is the /24 prefix of the local network, `None` where the
    /// machine has no usable interface: the scan then fails at once.
    /// Returns whether the 256 probes are to be started.
    pub fn init(&mut self, target: Option<String>, now_ms: i64) -> (spawn: bool)
        requires
            old(self)@.wf(),
        ensures
            final(self)@.wf(),
            final(self)@ == old(self)@.init(
                match target {
                    Some(t) => Some(t@),
                    None => None,
                },
                now_ms,
            ),
            spawn == (old(self)@.task is Absent && target.is_some()),
    {
        if self.handle.is_some() {
            return false;
        }
        match target {
            Some(t) => {
                self.progress = ScanProgress::new(t);
                self.handle = Some(ScanTask::Running { started_ms: now_ms });
                true
            },
            None => {
                self.progress = ScanProgress::new(String::new());
                self.handle = Some(ScanTask::Failed(String::from_str(NO_NETWORK)));
                false
            },
        }
    }

    /// A probe has ended, with the sensor it found or without one. It is
    /// counted if a scan is in flight that still waits for probes; a probe
    /// that reports after a cancel, or after the count is full, changes
    /// nothing.
    pub fn probe_finished(&mut self, found: Option<T>)
        requires
            old(self)@.wf(),
        ensures
            final(self)@.wf(),
            final(self)@ == old(self)@.probe(found),
            final(self)@.progress >= old(self)@.progress,
    {
        let running = match &self.handle {
            Some(ScanTask::Running { .. }) => true,
            _ => false,
        };
        if running && self.progress.progress < self.progress.total {
            self.progress.record(found);
        }
    }

    /// Whether a scan is in flight and every probe has reported.
    pub fn all_probed(&self) -> (b: bool)
        ensures
            b == (self@.running() && self@.progress == self@.total),
    {
        match &self.handle {
            Some(ScanTask::Running { .. }) => self.progress.is_complete(),
            _ => false,
        }
    }

    /// The driving task has seen every probe end: the scan is complete,
    /// with what was found, the time `now_ms` and the time it took. Changes
    /// nothing unless a scan is in flight and all probes have reported.
    pub fn finish(&mut self, now_ms: i64)
        requires
            old(self)@.wf(),
        ensures
            final(self)@.wf(),
            final(self)@ == old(self)@.finish(now_ms),
            final(self)@.progress == old(self)@.progress,
    {
        let started = match &self.handle {
            Some(ScanTask::Running { started_ms }) => *started_ms,
            _ => {
                return ;
            },
        };
        if !self.progress.is_complete() {
            return ;
        }
        let duration_ms: u64 = if now_ms >= started {
            (now_ms as i128 - started as i128) as u64
        } else {
            0
        };
        let mut scanned: Vec<T> = Vec::new();
        std::mem::swap(&mut scanned, &mut self.progress.scanned);
        self.handle = Some(
            ScanTask::Finished(ScannerResult { scanned, created_ms: now_ms, duration_ms }),
        );
    }

    /// Stops the scan in flight. Afterwards the scanner is idle with the
    /// last result it had, and probes that still report are not counted.
    pub fn cancel(&mut self)
        requires
            old(self)@.wf(),
        ensures
            final(self)@.wf(),
            final(self)@ == old(self)@.cancel(),
            final(self)@.task is Absent,
            final(self)@.last == old(self)@.last,
            final(self)@.progress == old(self)@.progress,
    {
        self.handle = None;
    }
}

impl<T: Clone> ScannerService<T> {
    /// What the scanner has to report. A scan that has ended becomes the
    /// last result, an error is reported once; a scan in flight is reported
    /// with a copy of its progress.
    pub fn state(&mut self) -> (s: ScannerState<T>)
        requires
            old(self)@.wf(),
        ensures
            final(self)@.wf(),
            final(self)@ == old(self)@.observe(),
            shows(s, old(self)@),
            final(self)@.progress == old(self)@.progress,
    {
        let mut handle: Option<ScanTask<T>> = None;
        std::mem::swap(&mut handle, &mut self.handle);
        match handle {
            None => match &self.last_result {
                Some(r) => ScannerState::Idle(Some(r.clone())),
                None => ScannerState::Idle(None),
            },
            Some(ScanTask::Finished(result)) => {
                let copy = result.clone();
                self.last_result = Some(result);
                ScannerState::Idle(Some(copy))
            },
            Some(ScanTask::Failed(e)) => ScannerState::Error(e),
            Some(ScanTask::Running { started_ms }) => {
                self.handle = Some(ScanTask::Running { started_ms });
                ScannerState::Scanning(self.progress.clone())
            },
        }
    }
}

/// At every moment of a scan `0 <= progress <= total == 256`, and until a
/// new scan starts the count never goes down: every event but `init`
/// keeps the bounds and does not lower the count, and `init` keeps the
/// bounds.
pub proof fn lemma_progress_bounded_and_monotone<T>(
    v: ScannerView<T>,
    found: Option<T>,
    target: Option<Seq<char>>,
    now_ms: i64,
)
    requires
        v.wf(),
    ensures
        v.total == 256 && 0 <= v.progress <= v.total,
        v.probe(found).wf() && v.probe(found).progress >= v.progress,
        v.finish(now_ms).wf() && v.finish(now_ms).progress == v.progress,
        v.cancel().wf() && v.cancel().progress == v.progress,
        v.observe().wf() && v.observe().progress == v.progress,
        v.init(target, now_ms).wf(),
{
}

/// After a cancel the scanner is idle with the last result it had, and
/// nothing that the cancelled scan still reports changes it: neither a
/// late probe nor a late end of the driving task.
pub proof fn lemma_cancel_is_final<T>(v: ScannerView<T>, found: Option<T>, now_ms: i64)
    ensures
        v.cancel().task is Absent,
        v.cancel().last == v.last,
        v.cancel().observe() == v.cancel(),
        v.cancel().probe(found) == v.cancel(),
        v.cancel().finish(now_ms) == v.cancel(),
{
}

/// A scan whose 256 probes have all reported is complete, whatever they
/// found and in whatever order: the count is 256 and the result lists
/// exactly the sensors that were found.
pub proof fn lemma_full_scan_completes<T>(v: ScannerView<T>, now_ms: i64)
    requires
        v.wf(),
        v.running(),
        v.progress == v.total,
    ensures
        v.finish(now_ms).task is Finished,
        v.finish(now_ms).progress == 256,
        v.finish(now_ms).observe().last.is_some(),
        v.finish(now_ms).observe().last.unwrap().scanned == v.scanned,
        v.finish(now_ms).observe().task is Absent,
{
}

/// The scanner after the probes of `reports` have reported, in that order.
pub open spec fn after_probes<T>(v: ScannerView<T>, reports: Seq<Option<T>>) -> ScannerView<T>
    decreases reports.len(),
{
    if reports.len() == 0 {
        v
    } else {
        after_probes(v, reports.drop_last()).probe(reports.last())
    }
}

/// The sensors among `reports`, in order.
pub open spec fn found_in<T>(reports: Seq<Option<T>>) -> Seq<T>
    decreases reports.len(),
{
    if reports.len() == 0 {
        Seq::empty()
    } else {
        match reports.last() {
            Some(s) => found_in(reports.drop_last()).push(s),
            None => found_in(reports.drop_last()),
        }
    }
}

/// While a scan waits for probes, every report is counted and every sensor
/// that was found is listed, in the order of the reports.
pub proof fn lemma_probes_are_counted<T>(v: ScannerView<T>, reports: Seq<Option<T>>)
    requires
        v.wf(),
        v.running(),
        v.progress + reports.len() <= v.total,
    ensures
        after_probes(v, reports).wf(),
        after_probes(v, reports).running(),
        after_probes(v, reports).progress == v.progress + reports.len(),
        after_probes(v, reports).scanned == v.scanned + found_in(reports),
        after_probes(v, reports).last == v.last,
        after_probes(v, reports).target == v.target,
        after_probes(v, reports).task == v.task,
    decreases reports.len(),
{
    if reports.len() == 0 {
        assert(v.scanned + found_in(reports) =~= v.scanned);
    } else {
        lemma_probes_are_counted(v, reports.drop_last());
        let before = after_probes(v, reports.drop_last());
        match reports.last() {
            Some(s) => {
                assert(before.scanned.push(s) =~= v.scanned + found_in(reports));
            },
            None => {},
        }
    }
}

/// A scan of 256 hosts, of which some answer and the others do not, ends
/// with a count of 256 and a result that lists exactly the sensors that
/// answered, whichever hosts those are and in whatever order the probes
/// end.
pub proof fn lemma_scan_finds_the_responsive<T>(
    v: ScannerView<T>,
    target: Seq<char>,
    reports: Seq<Option<T>>,
    started_ms: i64,
    ended_ms: i64,
)
    requires
        v.wf(),
        v.task is Absent,
        reports.len() == SCAN_TOTAL,
    ensures
        ({
            let done = after_probes(v.init(Some(target), started_ms), reports).finish(ended_ms);
            &&& done.progress == 256
            &&& done.task is Finished
            &&& done.observe().task is Absent
            &&& done.observe().last.is_some()
            &&& done.observe().last.unwrap().scanned == found_in(reports)
            &&& done.observe().last.unwrap().duration_ms == elapsed(started_ms, ended_ms)
        }),
{
    let begun = v.init(Some(target), started_ms);
    lemma_probes_are_counted(begun, reports);
    assert(begun.scanned + found_in(reports) =~= found_in(reports));
}

} // verus!
