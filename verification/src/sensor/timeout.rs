//! A restartable deadline, and the pairing window built on it.

use vstd::prelude::*;
use crate::sensor::keys::without;
use crate::sensor::keys::PairKey;
use crate::sensor::keys::PendingKeys;
use crate::sensor::keys::PENDING_CAPACITY;

verus! {

/// How long a button press keeps the pairing window open, in milliseconds.
pub const WINDOW_MS: u64 = 30000;

/// A deadline `delay_ms` after the moment it was last started.
#[derive(Debug, Clone, Copy, PartialEq, Eq, Structural)]
pub struct Timeout {
    delay_ms: u64,
    end_time: Option<u64>,
}

impl Timeout {
    /// The delay that every start adds to the current time.
    pub closed spec fn delay(self) -> u64 {
        self.delay_ms
    }

    /// The deadline, if the timeout was started since its last reset.
    pub closed spec fn deadline(self) -> Option<u64> {
        self.end_time
    }

    /// Whether the deadline has passed at `now_ms`. A timeout that was
    /// never started counts as one whose deadline is 0.
    pub open spec fn finished_at(self, now_ms: u64) -> bool {
        now_ms > (match self.deadline() {
            Some(end) => end,
            None => 0,
        })
    }

    /// A timeout that is not started.
    pub fn new(delay_ms: u64) -> (t: Timeout)
        ensures
            t.delay() == delay_ms,
            t.deadline().is_none(),
    {
        Timeout { delay_ms, end_time: None }
    }

    /// Starts, or restarts, the timeout: the deadline becomes
    /// `now_ms + delay`.
    pub fn start(&mut self, now_ms: u64)
        requires
            old(self).delay() + now_ms <= u64::MAX,
        ensures
            final(self).delay() == old(self).delay(),
            final(self).deadline() == Some((old(self).delay() + now_ms) as u64),
    {
        self.end_time = Some(self.delay_ms + now_ms);
    }

    /// Forgets the deadline.
    pub fn reset(&mut self)
        ensures
            final(self).delay() == old(self).delay(),
            final(self).deadline().is_none(),
    {
        self.end_time = None;
    }

    /// Whether the deadline has passed at `now_ms`.
    pub fn finished(&self, now_ms: u64) -> (b: bool)
        ensures
            b == self.finished_at(now_ms),
    {
        now_ms > (match self.end_time {
            Some(end) => end,
            None => 0,
        })
    }

    /// Whether the timeout was started since its last reset.
    pub fn started(&self) -> (b: bool)
        ensures
            b == self.deadline().is_some(),
    {
        self.end_time.is_some()
    }
}

/// Whether pairing is permitted, and until when.
#[derive(Debug, Clone, Copy, PartialEq, Eq, Structural)]
pub enum WindowState {
    Closed,
    Open(u64),
}

/// The pairing window of a device: closed until the button is pressed,
/// then open until [`WINDOW_MS`] after the last press. The keys issued
/// while it is open are held here until they are confirmed or the window
/// closes.
pub struct PairingWindow {
    timeout: Timeout,
    pending: PendingKeys,
}

impl PairingWindow {
    /// The state of the window.
    pub closed spec fn state(self) -> WindowState {
        match self.timeout.deadline() {
            Some(deadline) => WindowState::Open(deadline),
            None => WindowState::Closed,
        }
    }

    /// The keys that await confirmation, oldest first.
    pub closed spec fn issued(self) -> Seq<Seq<u8>> {
        self.pending@
    }

    /// A closed window holds no issued key, and every press opens the
    /// window for [`WINDOW_MS`].
    pub closed spec fn wf(self) -> bool {
        &&& self.timeout.delay() == WINDOW_MS
        &&& self.state() == WindowState::Closed ==> self.issued().len() == 0
    }

    /// A closed window holds no issued key.
    pub proof fn lemma_closed_holds_no_key(self)
        requires
            self.wf(),
            self.state() == WindowState::Closed,
        ensures
            self.issued() == Seq::<Seq<u8>>::empty(),
    {
        assert(self.issued() =~= Seq::<Seq<u8>>::empty());
    }

    /// Whether pairing is permitted at `now_ms`: the window is open and its
    /// deadline has not passed.
    pub open spec fn open_at(self, now_ms: u64) -> bool {
        match self.state() {
            WindowState::Open(deadline) => now_ms <= deadline,
            WindowState::Closed => false,
        }
    }

    /// The state after the periodic check at `now_ms`.
    pub open spec fn state_after_check(self, now_ms: u64) -> WindowState {
        if self.open_at(now_ms) {
            self.state()
        } else {
            WindowState::Closed
        }
    }

    /// A closed window.
    pub fn new() -> (w: PairingWindow)
        ensures
            w.state() == WindowState::Closed,
            w.issued() == Seq::<Seq<u8>>::empty(),
            w.wf(),
    {
        PairingWindow { timeout: Timeout::new(WINDOW_MS), pending: PendingKeys::new() }
    }

    /// The button was pressed at `now_ms`: the window opens, or stays open,
    /// until `now_ms + WINDOW_MS`. Issued keys are kept.
    pub fn press(&mut self, now_ms: u64)
        requires
            now_ms + WINDOW_MS <= u64::MAX,
            old(self).wf(),
        ensures
            final(self).state() == WindowState::Open((now_ms + WINDOW_MS) as u64),
            final(self).issued() == old(self).issued(),
            final(self).wf(),
    {
        self.timeout.reset();
        self.timeout.start(now_ms);
    }

    /// The periodic check at `now_ms`: once the deadline has passed the
    /// window closes and every key that was issued but not confirmed is
    /// dropped. Otherwise nothing changes.
    pub fn check(&mut self, now_ms: u64)
        requires
            old(self).wf(),
        ensures
            final(self).state() == old(self).state_after_check(now_ms),
            final(self).issued() == (if old(self).open_at(now_ms) {
                old(self).issued()
            } else {
                Seq::<Seq<u8>>::empty()
            }),
            final(self).wf(),
    {
        if self.timeout.started() && self.timeout.finished(now_ms) {
            self.pending.clear();
            self.timeout.reset();
        }
    }

    /// Whether the window is open.
    pub fn is_open(&self) -> (b: bool)
        ensures
            b == (self.state() != WindowState::Closed),
    {
        self.timeout.started()
    }

    /// Whether pairing is permitted at `now_ms`.
    pub fn is_open_at(&self, now_ms: u64) -> (b: bool)
        ensures
            b == self.open_at(now_ms),
    {
        self.timeout.started() && !self.timeout.finished(now_ms)
    }

    /// Whether `key` was issued in this window and awaits confirmation.
    pub fn holds(&self, key: &PairKey) -> (b: bool)
        ensures
            b == self.issued().contains(key@),
    {
        self.pending.contains(key)
    }

    /// Records a key issued in the open window. Fails, changing nothing,
    /// when [`PENDING_CAPACITY`] keys already await confirmation.
    pub fn issue(&mut self, key: &PairKey) -> (ok: bool)
        requires
            old(self).wf(),
            old(self).state() != WindowState::Closed,
        ensures
            ok <==> old(self).issued().len() < PENDING_CAPACITY,
            final(self).issued() == (if ok {
                old(self).issued().push(key@)
            } else {
                old(self).issued()
            }),
            final(self).state() == old(self).state(),
            final(self).wf(),
    {
        self.pending.issue(key)
    }

    /// Takes a confirmed key out of the issued ones.
    pub fn consume(&mut self, key: &PairKey)
        requires
            old(self).wf(),
        ensures
            final(self).issued() == without(old(self).issued(), key@),
            final(self).state() == old(self).state(),
            final(self).wf(),
    {
        proof {
            old(self).issued().lemma_filter_len(|t: Seq<u8>| t != key@);
        }
        self.pending.consume(key)
    }
}

} // verus!
