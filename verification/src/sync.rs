//! Keeping the cores together: no active core runs further ahead of the slowest one
//! than the slack allows.
//!
//! The threads that block and wake belong to the caller. Every function here takes
//! one decision: whether a core goes on, waits or stops, and whom to wake.

use vstd::prelude::*;

verus! {

/// The cycle counts of all cores, and who waits for whom.
pub struct LockStepSync {
    slack_limit: u64,
    cycles: Vec<u64>,
    active: Vec<bool>,
    /// Which cores wait for the others to catch up.
    waiting: Vec<bool>,
    /// For a waiting core, the lowest cycle count at which it may go on.
    wake_at: Vec<u64>,
    shutdown: bool,
}

/// What the synchroniser knows.
#[verifier::ext_equal]
pub ghost struct SyncView {
    pub slack: u64,
    pub cycles: Seq<u64>,
    pub active: Seq<bool>,
    pub waiting: Seq<bool>,
    pub wake_at: Seq<u64>,
    pub shutdown: bool,
}

/// What a core that reports its cycles does next.
#[derive(Clone, Copy, Debug, PartialEq, Eq, Structural)]
pub enum SyncStep {
    /// It is not taking part: nothing was recorded.
    Refused,
    /// It sleeps until it is woken, and then asks again.
    Wait,
    /// It goes on; the sleeping cores are woken if `notify`.
    Proceed { notify: bool },
}

/// What starting or stopping a core brings about.
#[derive(Clone, Copy, Debug, PartialEq, Eq, Structural)]
pub struct Activation {
    /// The core's cycle count.
    pub cycles: u64,
    /// Whether the cores that wait for others are woken.
    pub notify_waiters: bool,
    /// Whether the parked cores are woken.
    pub notify_parked: bool,
}

/// What a core that may be parked does next.
#[derive(Clone, Copy, Debug, PartialEq, Eq, Structural)]
pub enum ParkStep {
    /// It sleeps until it is woken, and then asks again.
    Wait,
    Run,
    Stop,
}

impl SyncView {
    pub open spec fn wf(self) -> bool {
        &&& 1 <= self.cycles.len() <= 32
        &&& self.active.len() == self.cycles.len()
        &&& self.waiting.len() == self.cycles.len()
        &&& self.wake_at.len() == self.cycles.len()
    }
}

/// The lowest cycle count among the first `n` cores that are active, apart from
/// `skip`.
pub open spec fn lowest(v: SyncView, skip: int, n: nat) -> Option<u64>
    decreases n,
{
    if n == 0 {
        None
    } else {
        let i = n - 1;
        let before = lowest(v, skip, i as nat);
        if i == skip || !v.active[i] {
            before
        } else {
            match before {
                Some(m) if m <= v.cycles[i] => Some(m),
                _ => Some(v.cycles[i]),
            }
        }
    }
}

/// The lowest cycle count of the active cores other than `core`.
pub open spec fn lowest_other(v: SyncView, core: int) -> Option<u64> {
    lowest(v, core, v.cycles.len())
}

/// The lowest cycle count of all active cores.
pub open spec fn lowest_active(v: SyncView) -> Option<u64> {
    lowest(v, -1, v.cycles.len())
}

/// A 64-bit pattern as a signed number.
pub open spec fn signed64(x: int) -> int {
    if x >= 0x8000_0000_0000_0000 {
        x - 0x1_0000_0000_0000_0000
    } else {
        x
    }
}

/// Whether a core is further ahead of another than the slack allows. Cycle counts
/// wrap around, so the distance is signed.
pub open spec fn too_far(cycles: u64, other: u64, slack: u64) -> bool {
    signed64((cycles - other) % 0x1_0000_0000_0000_0000) > signed64(slack as int)
}

/// Whether some other core that waits may go on.
pub open spec fn someone_ready(v: SyncView, core: int) -> bool {
    match lowest_active(v) {
        Some(m) => exists|i: int|
            0 <= i < v.cycles.len() && i != core && #[trigger] v.waiting[i] && v.wake_at[i] <= m,
        None => false,
    }
}

/// Whether a core has to wait.
pub open spec fn must_wait(v: SyncView, core: int, cycles: u64) -> bool {
    !v.shutdown && match lowest_other(v, core) {
        Some(m) => too_far(cycles, m, v.slack),
        None => false,
    }
}

/// The cycle count that a core waits for.
pub open spec fn awaited(cycles: u64, slack: u64) -> u64 {
    if cycles >= slack {
        (cycles - slack) as u64
    } else {
        0
    }
}

/// A core held against the others: it waits, or goes on.
pub open spec fn weighed(v: SyncView, core: int, cycles: u64) -> (SyncView, SyncStep) {
    if must_wait(v, core, cycles) {
        (
            SyncView {
                waiting: v.waiting.update(core, true),
                wake_at: v.wake_at.update(core, awaited(cycles, v.slack)),
                ..v
            },
            SyncStep::Wait,
        )
    } else {
        let w = SyncView { waiting: v.waiting.update(core, false), ..v };
        (w, SyncStep::Proceed { notify: someone_ready(w, core) })
    }
}

/// A core reports its cycles.
pub open spec fn reported(v: SyncView, core: int, cycles: u64) -> (SyncView, SyncStep) {
    if v.shutdown || !v.active[core] {
        (v, SyncStep::Refused)
    } else {
        weighed(SyncView { cycles: v.cycles.update(core, cycles), ..v }, core, cycles)
    }
}

/// A core is started or stopped. One that starts again joins the slowest active core.
pub open spec fn activated(v: SyncView, core: int, active: bool) -> SyncView {
    if v.active[core] == active {
        v
    } else {
        SyncView {
            active: v.active.update(core, active),
            cycles: match lowest_active(v) {
                Some(m) if active => v.cycles.update(core, m),
                _ => v.cycles,
            },
            ..v
        }
    }
}

/// What a core that may be parked does.
pub open spec fn parked(v: SyncView, core: int) -> ParkStep {
    if v.shutdown {
        ParkStep::Stop
    } else if v.active[core] {
        ParkStep::Run
    } else {
        ParkStep::Wait
    }
}

/// All cores are to stop.
pub open spec fn stopped(v: SyncView) -> SyncView {
    SyncView { shutdown: true, ..v }
}

impl LockStepSync {
    pub closed spec fn view(&self) -> SyncView {
        SyncView {
            slack: self.slack_limit,
            cycles: self.cycles@,
            active: self.active@,
            waiting: self.waiting@,
            wake_at: self.wake_at@,
            shutdown: self.shutdown,
        }
    }

    pub closed spec fn wf(&self) -> bool {
        &&& self@.wf()
    }

    /// All cores active, at cycle 0.
    pub fn new(num_threads: usize, slack_limit: u64) -> (r: Self)
        requires
            1 <= num_threads <= 32,
        ensures
            r.wf(),
            r@ == (SyncView {
                slack: slack_limit,
                cycles: Seq::new(num_threads as nat, |i: int| 0u64),
                active: Seq::new(num_threads as nat, |i: int| true),
                waiting: Seq::new(num_threads as nat, |i: int| false),
                wake_at: Seq::new(num_threads as nat, |i: int| 0u64),
                shutdown: false,
            }),
    {
        let r = Self {
            slack_limit,
            cycles: vec![0u64; num_threads],
            active: vec![true; num_threads],
            waiting: vec![false; num_threads],
            wake_at: vec![0u64; num_threads],
            shutdown: false,
        };
        assert(r.cycles@ =~= Seq::new(num_threads as nat, |i: int| 0u64));
        assert(r.active@ =~= Seq::new(num_threads as nat, |i: int| true));
        assert(r.waiting@ =~= Seq::new(num_threads as nat, |i: int| false));
        assert(r.wake_at@ =~= Seq::new(num_threads as nat, |i: int| 0u64));
        r
    }

    pub fn slack_limit(&self) -> (r: u64)
        ensures
            r == self@.slack,
    {
        self.slack_limit
    }

    /// The lowest cycle count of the active cores, apart from `skip`.
    fn lowest_except(&self, skip: usize) -> (r: Option<u64>)
        requires
            self.wf(),
        ensures
            r == lowest(
                self@,
                if skip < self@.cycles.len() {
                    skip as int
                } else {
                    -1
                },
                self@.cycles.len(),
            ),
    {
        let ghost sk = if skip < self@.cycles.len() {
            skip as int
        } else {
            -1
        };
        let mut best: Option<u64> = None;
        let mut i: usize = 0;
        while i < self.cycles.len()
            invariant
                self.wf(),
                i <= self.cycles.len(),
                sk == if skip < self@.cycles.len() {
                    skip as int
                } else {
                    -1
                },
                best == lowest(self@, sk, i as nat),
            decreases self.cycles.len() - i,
        {
            if i != skip && self.active[i] {
                let c: u64 = self.cycles[i];
                best = match best {
                    Some(m) => if m <= c {
                        Some(m)
                    } else {
                        Some(c)
                    },
                    None => Some(c),
                };
            }
            i += 1;
        }
        best
    }

    /// Whether some other core that waits may go on.
    fn anyone_ready(&self, core_id: usize) -> (r: bool)
        requires
            self.wf(),
        ensures
            r == someone_ready(self@, core_id as int),
    {
        let low: u64 = match self.lowest_except(self.cycles.len()) {
            Some(m) => m,
            None => return false,
        };
        let mut i: usize = 0;
        while i < self.cycles.len()
            invariant
                self.wf(),
                i <= self.cycles.len(),
                forall|k: int|
                    0 <= k < i && k != core_id ==> !(#[trigger] self@.waiting[k]
                        && self@.wake_at[k] <= low),
                lowest_active(self@) == Some(low),
            decreases self.cycles.len() - i,
        {
            if i != core_id && self.waiting[i] && self.wake_at[i] <= low {
                assert(self@.waiting[i as int] && self@.wake_at[i as int] <= low);
                return true;
            }
            i += 1;
        }
        false
    }

    /// Hold a core against the others.
    fn weigh(&mut self, core_id: usize, current_cycles: u64) -> (r: SyncStep)
        requires
            old(self).wf(),
            core_id < old(self)@.cycles.len(),
        ensures
            final(self).wf(),
            (final(self)@, r) == weighed(old(self)@, core_id as int, current_cycles),
    {
        let blocked: bool = !self.shutdown && match self.lowest_except(core_id) {
            Some(m) => ahead_of(current_cycles, m, self.slack_limit),
            None => false,
        };
        if blocked {
            self.waiting[core_id] = true;
            self.wake_at[core_id] = if current_cycles >= self.slack_limit {
                current_cycles - self.slack_limit
            } else {
                0
            };
            SyncStep::Wait
        } else {
            self.waiting[core_id] = false;
            SyncStep::Proceed { notify: self.anyone_ready(core_id) }
        }
    }

    /// Report a core's cycle count.
    pub fn sync_core(&mut self, core_id: usize, current_cycles: u64) -> (r: SyncStep)
        requires
            old(self).wf(),
            old(self)@.shutdown || core_id < old(self)@.cycles.len(),
        ensures
            final(self).wf(),
            (final(self)@, r) == reported(old(self)@, core_id as int, current_cycles),
    {
        if self.shutdown || !self.active[core_id] {
            return SyncStep::Refused;
        }
        self.cycles[core_id] = current_cycles;
        self.weigh(core_id, current_cycles)
    }

    /// Ask again after having been woken.
    pub fn resume_core(&mut self, core_id: usize, current_cycles: u64) -> (r: SyncStep)
        requires
            old(self).wf(),
            core_id < old(self)@.cycles.len(),
        ensures
            final(self).wf(),
            (final(self)@, r) == weighed(old(self)@, core_id as int, current_cycles),
    {
        self.weigh(core_id, current_cycles)
    }

    /// Start or stop a core.
    pub fn set_thread_active(&mut self, core_id: usize, active: bool) -> (r: Activation)
        requires
            old(self).wf(),
            core_id < old(self)@.cycles.len(),
        ensures
            final(self).wf(),
            final(self)@ == activated(old(self)@, core_id as int, active),
            r == (Activation {
                cycles: final(self)@.cycles[core_id as int],
                notify_waiters: old(self)@.active[core_id as int] != active,
                notify_parked: !old(self)@.active[core_id as int] && active,
            }),
    {
        let was: bool = self.active[core_id];
        if was && !active {
            self.active[core_id] = false;
        } else if !was && active {
            match self.lowest_except(self.cycles.len()) {
                Some(m) => {
                    self.cycles[core_id] = m;
                },
                None => {},
            }
            self.active[core_id] = true;
        }
        Activation {
            cycles: self.cycles[core_id],
            notify_waiters: was != active,
            notify_parked: !was && active,
        }
    }

    pub fn get_cycles(&self, core_id: usize) -> (r: u64)
        requires
            self.wf(),
            core_id < self@.cycles.len(),
        ensures
            r == self@.cycles[core_id as int],
    {
        self.cycles[core_id]
    }

    /// Whether a core stays parked.
    pub fn park_while_inactive(&self, core_id: usize) -> (r: ParkStep)
        requires
            self.wf(),
            core_id < self@.cycles.len(),
        ensures
            r == parked(self@, core_id as int),
    {
        if self.shutdown {
            ParkStep::Stop
        } else if self.active[core_id] {
            ParkStep::Run
        } else {
            ParkStep::Wait
        }
    }

    /// Stop all cores. Everyone is to be woken.
    pub fn request_shutdown(&mut self)
        requires
            old(self).wf(),
        ensures
            final(self).wf(),
            final(self)@ == stopped(old(self)@),
    {
        self.shutdown = true;
    }

    pub fn is_shutdown(&self) -> (r: bool)
        ensures
            r == self@.shutdown,
    {
        self.shutdown
    }
}

/// Whether a core is further ahead than the slack allows.
fn ahead_of(cycles: u64, other: u64, slack: u64) -> (r: bool)
    ensures
        r == too_far(cycles, other, slack),
{
    let diff: i128 = cycles as i128 - other as i128;
    let wrapped: i128 = if diff < 0 {
        diff + 0x1_0000_0000_0000_0000
    } else {
        diff
    };
    let half: i128 = 0x8000_0000_0000_0000;
    let distance: i128 = if wrapped >= half {
        wrapped - 0x1_0000_0000_0000_0000
    } else {
        wrapped
    };
    let limit: i128 = if slack as i128 >= half {
        slack as i128 - 0x1_0000_0000_0000_0000
    } else {
        slack as i128
    };
    assert(wrapped == (cycles - other) % 0x1_0000_0000_0000_0000);
    distance > limit
}

/// The lowest cycle count is that of an active core, and no active core is below it.
pub proof fn lowest_is_a_minimum(v: SyncView, skip: int, n: nat)
    requires
        n <= v.cycles.len(),
        n <= v.active.len(),
    ensures
        match lowest(v, skip, n) {
            Some(m) => {
                &&& exists|i: int|
                    0 <= i < n && i != skip && #[trigger] v.active[i] && v.cycles[i] == m
                &&& forall|i: int|
                    0 <= i < n && i != skip && #[trigger] v.active[i] ==> m <= v.cycles[i]
            },
            None => forall|i: int| 0 <= i < n && i != skip ==> !#[trigger] v.active[i],
        },
    decreases n,
{
    if n > 0 {
        lowest_is_a_minimum(v, skip, (n - 1) as nat);
        let i = n - 1;
        if i != skip && v.active[i] {
            match lowest(v, skip, i as nat) {
                Some(m) => {
                    let k = choose|k: int|
                        0 <= k < i && k != skip && #[trigger] v.active[k] && v.cycles[k] == m;
                    assert(v.active[k]);
                },
                None => {},
            }
            assert(v.active[i]);
        } else {
            match lowest(v, skip, i as nat) {
                Some(m) => {
                    let k = choose|k: int|
                        0 <= k < i && k != skip && #[trigger] v.active[k] && v.cycles[k] == m;
                    assert(v.active[k]);
                },
                None => {},
            }
        }
    }
}

/// A core that goes on is within the slack of every other active core, as long as
/// nobody asked for a shutdown.
pub proof fn proceeding_core_is_within_slack(v: SyncView, core: int, cycles: u64, i: int)
    requires
        v.wf(),
        0 <= core < v.cycles.len(),
        0 <= i < v.cycles.len(),
        i != core,
        v.active[i],
        forall|k: int|
            0 <= k < v.cycles.len() && k != core && v.active[k] ==> -0x8000_0000_0000_0000 <= cycles
                - #[trigger] v.cycles[k] < 0x8000_0000_0000_0000,
        reported(v, core, cycles).1 is Proceed,
    ensures
        cycles - v.cycles[i] <= v.slack,
{
    let w = SyncView { cycles: v.cycles.update(core, cycles), ..v };
    lowest_is_a_minimum(w, core, w.cycles.len());
    assert(w.active[i]);
    match lowest_other(w, core) {
        Some(m) => {
            let k = choose|k: int|
                0 <= k < w.cycles.len() && k != core && #[trigger] w.active[k] && w.cycles[k] == m;
            assert(w.cycles[k] == v.cycles[k]);
        },
        None => {},
    }
}

/// The slowest core never waits, so some core can always go on.
pub proof fn slowest_core_never_waits(v: SyncView, core: int, cycles: u64)
    requires
        v.wf(),
        0 <= core < v.cycles.len(),
        v.slack < 0x8000_0000_0000_0000,
        forall|k: int|
            0 <= k < v.cycles.len() && k != core && v.active[k] ==> 0 <= #[trigger] v.cycles[k]
                - cycles <= 0x8000_0000_0000_0000,
    ensures
        reported(v, core, cycles).1 !is Wait,
{
    let w = SyncView { cycles: v.cycles.update(core, cycles), ..v };
    lowest_is_a_minimum(w, core, w.cycles.len());
    match lowest_other(w, core) {
        Some(m) => {
            let k = choose|k: int|
                0 <= k < w.cycles.len() && k != core && #[trigger] w.active[k] && w.cycles[k] == m;
            assert(w.cycles[k] == v.cycles[k]);
        },
        None => {},
    }
}

/// A waiting core is woken only when it may go on: once the slowest active core has
/// reached the count it waits for, it is no longer too far ahead.
pub proof fn woken_core_may_proceed(v: SyncView, core: int, cycles: u64)
    requires
        v.wf(),
        0 <= core < v.cycles.len(),
        v.slack < 0x8000_0000_0000_0000,
        v.wake_at[core] == awaited(cycles, v.slack),
        lowest_active(v) matches Some(m) && v.wake_at[core] <= m,
        forall|k: int|
            0 <= k < v.cycles.len() && k != core && v.active[k] ==> #[trigger] v.cycles[k] - cycles
                <= 0x8000_0000_0000_0000,
    ensures
        weighed(v, core, cycles).1 is Proceed,
{
    lowest_is_a_minimum(v, core, v.cycles.len());
    lowest_is_a_minimum(v, -1, v.cycles.len());
    match lowest_other(v, core) {
        Some(m) => {
            let k = choose|k: int|
                0 <= k < v.cycles.len() && k != core && #[trigger] v.active[k] && v.cycles[k] == m;
            assert(v.active[k]);
            assert(v.cycles[k] - cycles <= 0x8000_0000_0000_0000);
        },
        None => {},
    }
}

/// After a shutdown request every report is refused and moves no count, whoever makes it;
/// parked cores stop, and a core that waits goes on.
pub proof fn shutdown_releases_everyone(v: SyncView, core: int, cycles: u64)
    ensures
        reported(stopped(v), core, cycles) == (stopped(v), SyncStep::Refused),
        weighed(stopped(v), core, cycles).1 is Proceed,
        parked(stopped(v), core) == ParkStep::Stop,
{
}

/// Once requested, a shutdown stays: nothing that a core does takes it back.
pub proof fn shutdown_is_final(v: SyncView, core: int, cycles: u64, active: bool)
    requires
        v.shutdown,
    ensures
        reported(v, core, cycles).0.shutdown,
        weighed(v, core, cycles).0.shutdown,
        weighed(v, core, cycles).0.cycles == v.cycles,
        activated(v, core, active).shutdown,
        stopped(v) == v,
{
}

/// A core that starts again is not ahead of any active core.
pub proof fn started_core_joins_the_slowest(v: SyncView, core: int, i: int)
    requires
        v.wf(),
        0 <= core < v.cycles.len(),
        0 <= i < v.cycles.len(),
        !v.active[core],
        v.active[i],
    ensures
        activated(v, core, true).cycles[core] <= activated(v, core, true).cycles[i],
{
    lowest_is_a_minimum(v, -1, v.cycles.len());
}

/// A core that is more than the slack ahead of some other active core waits.
pub proof fn core_too_far_ahead_waits(v: SyncView, core: int, cycles: u64, i: int)
    requires
        v.wf(),
        0 <= core < v.cycles.len(),
        0 <= i < v.cycles.len(),
        i != core,
        !v.shutdown,
        v.active[core],
        v.active[i],
        v.slack < 0x8000_0000_0000_0000,
        cycles - v.cycles[i] > v.slack,
        forall|k: int|
            0 <= k < v.cycles.len() && k != core && v.active[k] ==> -0x8000_0000_0000_0000 <= cycles
                - #[trigger] v.cycles[k] < 0x8000_0000_0000_0000,
    ensures
        reported(v, core, cycles).1 is Wait,
        reported(v, core, cycles).0.waiting[core],
{
    let w = SyncView { cycles: v.cycles.update(core, cycles), ..v };
    lowest_is_a_minimum(w, core, w.cycles.len());
    assert(w.active[i]);
    match lowest_other(w, core) {
        Some(m) => {
            let k = choose|k: int|
                0 <= k < w.cycles.len() && k != core && #[trigger] w.active[k] && w.cycles[k] == m;
            assert(w.cycles[k] == v.cycles[k]);
            assert(m <= w.cycles[i]);
        },
        None => {},
    }
}

/// A core that waits for a count which every active core has reached is not forgotten: the core
/// that goes on has it woken.
pub proof fn ready_core_is_woken(v: SyncView, core: int, cycles: u64, i: int)
    requires
        v.wf(),
        0 <= core < v.cycles.len(),
        0 <= i < v.cycles.len(),
        i != core,
        v.active[core],
        v.waiting[i],
        v.wake_at[i] <= cycles,
        forall|k: int|
            0 <= k < v.cycles.len() && k != core && v.active[k] ==> v.wake_at[i]
                <= #[trigger] v.cycles[k],
        reported(v, core, cycles).1 is Proceed,
    ensures
        reported(v, core, cycles).1 == (SyncStep::Proceed { notify: true }),
{
    let w = SyncView {
        cycles: v.cycles.update(core, cycles),
        waiting: v.waiting.update(core, false),
        ..v
    };
    lowest_is_a_minimum(w, -1, w.cycles.len());
    assert(w.active[core]);
    match lowest_active(w) {
        Some(m) => {
            let k = choose|k: int|
                0 <= k < w.cycles.len() && k != -1 && #[trigger] w.active[k] && w.cycles[k] == m;
            assert(w.cycles[k] == if k == core {
                cycles
            } else {
                v.cycles[k]
            });
            assert(w.waiting[i] && w.wake_at[i] <= m);
        },
        None => {},
    }
}

/// A report changes the count of its own core alone, and a core that stopped cannot report.
pub proof fn reports_concern_one_core(v: SyncView, core: int, cycles: u64, i: int)
    requires
        v.wf(),
        0 <= core < v.cycles.len(),
        0 <= i < v.cycles.len(),
    ensures
        i != core ==> reported(v, core, cycles).0.cycles[i] == v.cycles[i],
        i != core ==> reported(v, core, cycles).0.waiting[i] == v.waiting[i],
        !v.shutdown && v.active[core] ==> reported(v, core, cycles).0.cycles[core] == cycles,
        !v.active[core] || v.shutdown ==> reported(v, core, cycles) == (v, SyncStep::Refused),
        reported(v, core, cycles).0.active == v.active,
        reported(v, core, cycles).1 is Proceed ==> !reported(v, core, cycles).0.waiting[core],
{
}

/// Starting or stopping a core leaves all others as they are; stopping keeps its count.
pub proof fn activation_concerns_one_core(v: SyncView, core: int, active: bool, i: int)
    requires
        v.wf(),
        0 <= core < v.cycles.len(),
        0 <= i < v.cycles.len(),
    ensures
        activated(v, core, active).active[core] == active,
        i != core ==> activated(v, core, active).active[i] == v.active[i],
        i != core ==> activated(v, core, active).cycles[i] == v.cycles[i],
        !active ==> activated(v, core, active).cycles == v.cycles,
        v.active[core] ==> activated(v, core, active).cycles == v.cycles,
{
}

/// A core that is stopped stays parked until it is started, and a shutdown ends even that.
pub proof fn stopped_core_is_parked(v: SyncView, core: int, active: bool)
    requires
        v.wf(),
        0 <= core < v.cycles.len(),
        !v.shutdown,
    ensures
        parked(activated(v, core, active), core) == if active {
            ParkStep::Run
        } else {
            ParkStep::Wait
        },
        parked(stopped(v), core) == ParkStep::Stop,
{
}

/// A core that has to wait waits for the others to come within the slack, and no longer.
pub proof fn waiting_core_names_its_count(v: SyncView, core: int, cycles: u64)
    requires
        v.wf(),
        0 <= core < v.cycles.len(),
        reported(v, core, cycles).1 is Wait,
    ensures
        ({
            let at = reported(v, core, cycles).0.wake_at[core];
            &&& cycles >= v.slack ==> at + v.slack == cycles
            &&& cycles < v.slack ==> at == 0
        }),
{
}

} // verus!
