//! Unit production: the vehicle depot's build queue with its countdown, the
//! per-unit counts shown on the build buttons, and the progress bar.
use std::collections::HashMap;
use vstd::prelude::*;

use crate::units::{spec_unit_build_time, spec_unit_code, QueueVehicleEv, UnitType};

verus! {

/// Nanoseconds per second.
pub const NANOS_PER_SEC: u64 = 1_000_000_000;

/// A one-shot countdown, in nanoseconds: it runs until its elapsed time
/// reaches its duration, reports that on the tick it happens, and then stays
/// finished.
#[derive(Clone, Copy, PartialEq, Eq, Structural, Debug)]
pub struct OnceTimer {
    pub duration: u64,
    pub elapsed: u64,
    pub finished: bool,
    pub just_finished: bool,
}

/// The timer after a tick of `delta` nanoseconds.
pub open spec fn spec_tick(t: OnceTimer, delta: u64) -> OnceTimer {
    if t.finished {
        OnceTimer { just_finished: false, ..t }
    } else {
        let e = if t.elapsed + delta > u64::MAX { u64::MAX as int } else { t.elapsed + delta };
        if e >= t.duration {
            OnceTimer { duration: t.duration, elapsed: t.duration, finished: true, just_finished: true }
        } else {
            OnceTimer { duration: t.duration, elapsed: e as u64, finished: false, just_finished: false }
        }
    }
}

impl OnceTimer {
    /// A timer of `duration` nanoseconds that has not started.
    pub fn new(duration: u64) -> (r: Self)
        ensures
            r == (OnceTimer { duration, elapsed: 0, finished: false, just_finished: false }),
    {
        OnceTimer { duration, elapsed: 0, finished: false, just_finished: false }
    }

    /// Advances the timer by `delta` nanoseconds.
    pub fn tick(&mut self, delta: u64)
        ensures
            *final(self) == spec_tick(*old(self), delta),
    {
        if self.finished {
            self.just_finished = false;
            return;
        }
        let e = self.elapsed.saturating_add(delta);
        if e >= self.duration {
            self.elapsed = self.duration;
            self.finished = true;
            self.just_finished = true;
        } else {
            self.elapsed = e;
            self.just_finished = false;
        }
    }
}

/// Law: a running timer reports completion on exactly the tick that brings
/// its elapsed time to its duration, and a finished timer never reports it
/// again.
pub proof fn lemma_timer_fires_once(t: OnceTimer, delta: u64)
    ensures
        !t.finished ==> (spec_tick(t, delta).just_finished <==> t.elapsed + delta >= t.duration),
        t.finished ==> !spec_tick(t, delta).just_finished && spec_tick(t, delta).finished,
        t.elapsed <= t.duration ==> spec_tick(t, delta).elapsed <= t.duration,
{
}

/// A request to produce a unit now.
#[derive(Clone, Copy, PartialEq, Eq, Structural, Debug)]
pub struct BuildVehicleEv(pub UnitType);

/// The vehicle depot's queue: units waiting to be built, the first one
/// counting down.
pub struct VehicleBuildQueue {
    pub queue: Vec<(UnitType, OnceTimer)>,
}

impl VehicleBuildQueue {
    /// An empty queue.
    pub fn new() -> (r: Self)
        ensures
            r.queue@.len() == 0,
    {
        VehicleBuildQueue { queue: Vec::new() }
    }
}

/// Puts the vehicle at the back of the queue with a countdown of its build
/// time.
pub fn obs_queue_vehicle(trigger: &QueueVehicleEv, build_queue: &mut VehicleBuildQueue)
    ensures
        final(build_queue).queue@ == old(build_queue).queue@.push(
            (
                trigger.0,
                OnceTimer {
                    duration: (spec_unit_build_time(trigger.0) * NANOS_PER_SEC) as u64,
                    elapsed: 0,
                    finished: false,
                    just_finished: false,
                },
            ),
        ),
{
    let unit = trigger.0;
    let timer = OnceTimer::new(unit.build_time() * NANOS_PER_SEC);
    build_queue.queue.push((unit, timer));
}

/// The queue after a frame of `delta` nanoseconds, and the unit it releases.
pub open spec fn spec_build_vehicle_timer(q: Seq<(UnitType, OnceTimer)>, delta: u64) -> (
    Seq<(UnitType, OnceTimer)>,
    Option<BuildVehicleEv>,
) {
    if q.len() == 0 {
        (q, None)
    } else {
        let t = spec_tick(q[0].1, delta);
        if t.just_finished {
            (q.drop_first(), Some(BuildVehicleEv(q[0].0)))
        } else {
            (q.update(0, (q[0].0, t)), None)
        }
    }
}

/// Runs the countdown of the first queued unit for a frame of `delta`
/// nanoseconds; when it completes, the unit leaves the queue and is returned
/// to be built.
pub fn build_vehicle_timer(delta: u64, build_queue: &mut VehicleBuildQueue) -> (r: Option<BuildVehicleEv>)
    ensures
        (final(build_queue).queue@, r) == spec_build_vehicle_timer(old(build_queue).queue@, delta),
{
    if build_queue.queue.len() == 0 {
        return None;
    }
    let (unit_type, mut timer) = build_queue.queue[0];
    timer.tick(delta);
    if timer.just_finished {
        build_queue.queue.remove(0);
        assert(build_queue.queue@ =~= old(build_queue).queue@.drop_first());
        Some(BuildVehicleEv(unit_type))
    } else {
        build_queue.queue.set(0, (unit_type, timer));
        None
    }
}

/// Law: units leave the queue in the order they were queued: the unit
/// released is the one at the front, and the rest keep their order; no other
/// unit's countdown moves.
pub proof fn lemma_queue_is_fifo(q: Seq<(UnitType, OnceTimer)>, delta: u64)
    requires
        q.len() > 0,
    ensures
        spec_build_vehicle_timer(q, delta).1 matches Some(ev) ==> ev.0 == q[0].0
            && spec_build_vehicle_timer(q, delta).0 == q.drop_first(),
        spec_build_vehicle_timer(q, delta).1 is None ==> spec_build_vehicle_timer(q, delta).0.len() == q.len()
            && forall|i: int| 1 <= i < q.len() ==> #[trigger] spec_build_vehicle_timer(q, delta).0[i] == q[i],
{
}

/// Law: a freshly queued unit at the front of the queue is released by the
/// first frame that lasts at least its build time.
pub proof fn lemma_build_takes_build_time(u: UnitType, rest: Seq<(UnitType, OnceTimer)>, delta: u64)
    requires
        delta >= spec_unit_build_time(u) * NANOS_PER_SEC,
    ensures
        ({
            let t = OnceTimer {
                duration: (spec_unit_build_time(u) * NANOS_PER_SEC) as u64,
                elapsed: 0,
                finished: false,
                just_finished: false,
            };
            spec_build_vehicle_timer(seq![(u, t)] + rest, delta) == (rest, Some(BuildVehicleEv(u)))
        }),
{
    let t = OnceTimer {
        duration: (spec_unit_build_time(u) * NANOS_PER_SEC) as u64,
        elapsed: 0,
        finished: false,
        just_finished: false,
    };
    assert((seq![(u, t)] + rest).drop_first() =~= rest);
}

/// What to do with a unit's build progress bar.
#[derive(Clone, Copy, PartialEq, Eq, Structural, Debug)]
pub enum ProgressBar {
    /// Hide the bar.
    Hidden,
    /// Show the bar filled to `elapsed / duration`.
    Shown { elapsed: u64, duration: u64 },
}

/// Whether the countdown has passed 99.5 % of its duration.
pub open spec fn nearly_done(elapsed: u64, duration: u64) -> bool {
    duration > 0 && elapsed * 1000 > duration * 995
}

/// The state of the progress bar of unit `bar`, given the queue: `None`
/// when the queue is empty (bars are left as they are); hidden unless the
/// bar's unit is the one being built and it is not nearly done.
pub open spec fn spec_progress_bar(q: Seq<(UnitType, OnceTimer)>, bar: UnitType) -> Option<ProgressBar> {
    if q.len() == 0 {
        None
    } else if q[0].0 != bar || nearly_done(q[0].1.elapsed, q[0].1.duration) {
        Some(ProgressBar::Hidden)
    } else {
        Some(ProgressBar::Shown { elapsed: q[0].1.elapsed, duration: q[0].1.duration })
    }
}

/// Decides the state of the progress bar of unit `bar`.
pub fn update_build_progress_bar(res: &VehicleBuildQueue, bar: UnitType) -> (r: Option<ProgressBar>)
    ensures
        r == spec_progress_bar(res.queue@, bar),
{
    if res.queue.len() == 0 {
        return None;
    }
    let (unit_type, timer) = res.queue[0];
    let done = timer.duration > 0 && (timer.elapsed as u128) * 1000 > (timer.duration as u128) * 995;
    if unit_type != bar || done {
        Some(ProgressBar::Hidden)
    } else {
        Some(ProgressBar::Shown { elapsed: timer.elapsed, duration: timer.duration })
    }
}

/// How many units of each kind are waiting to be built.
pub struct BuildQueueCount {
    pub counts: HashMap<u64, usize>,
}

impl BuildQueueCount {
    /// How many units of kind `unit` are waiting.
    pub open spec fn count(&self, unit: UnitType) -> int {
        if self.counts@.contains_key(spec_unit_code(unit)) {
            self.counts@[spec_unit_code(unit)] as int
        } else {
            0
        }
    }

    /// No unit is waiting.
    pub fn new() -> (r: Self)
        ensures
            forall|u: UnitType| #[trigger] r.count(u) == 0,
    {
        BuildQueueCount { counts: HashMap::new() }
    }

    /// One more unit of kind `unit` is waiting.
    pub fn add(&mut self, unit: &UnitType)
        requires
            old(self).count(*unit) < usize::MAX,
        ensures
            final(self).count(*unit) == old(self).count(*unit) + 1,
            forall|u: UnitType| u != *unit ==> #[trigger] final(self).count(u) == old(self).count(u),
    {
        let key = unit.code();
        let current: usize = match self.counts.get(&key) {
            Some(c) => *c,
            None => 0,
        };
        self.counts.insert(key, current + 1);
        proof {
            assert forall|u: UnitType| u != *unit implies #[trigger] self.count(u) == old(self).count(u) by {
                lemma_code_distinct(u, *unit);
            }
        }
    }

    /// One unit of kind `unit` less is waiting.
    pub fn remove(&mut self, unit: &UnitType)
        requires
            old(self).count(*unit) > 0,
        ensures
            final(self).count(*unit) == old(self).count(*unit) - 1,
            forall|u: UnitType| u != *unit ==> #[trigger] final(self).count(u) == old(self).count(u),
    {
        let key = unit.code();
        let current: usize = match self.counts.get(&key) {
            Some(c) => *c,
            None => 0,
        };
        self.counts.insert(key, current - 1);
        proof {
            assert forall|u: UnitType| u != *unit implies #[trigger] self.count(u) == old(self).count(u) by {
                lemma_code_distinct(u, *unit);
            }
        }
    }

    /// How many units of kind `unit` are waiting.
    pub fn get(&self, unit: &UnitType) -> (r: usize)
        ensures
            r == self.count(*unit),
    {
        let key = unit.code();
        match self.counts.get(&key) {
            Some(c) => *c,
            None => 0,
        }
    }
}

proof fn lemma_code_distinct(a: UnitType, b: UnitType)
    requires
        a != b,
    ensures
        spec_unit_code(a) != spec_unit_code(b),
{
}

/// Law: taking a unit off the count undoes adding it.
pub proof fn lemma_remove_undoes_add(before: BuildQueueCount, added: BuildQueueCount, after: BuildQueueCount, unit: UnitType)
    requires
        forall|u: UnitType| u != unit ==> #[trigger] added.count(u) == before.count(u),
        added.count(unit) == before.count(unit) + 1,
        forall|u: UnitType| u != unit ==> #[trigger] after.count(u) == added.count(u),
        after.count(unit) == added.count(unit) - 1,
    ensures
        forall|u: UnitType| #[trigger] after.count(u) == before.count(u),
{
}

/// What the count label on a unit's build button shows: nothing (hidden)
/// when no unit of that kind is waiting, else the number.
pub fn update_build_queue_count(build_queue_count: &BuildQueueCount, unit: &UnitType) -> (r: Option<usize>)
    ensures
        build_queue_count.count(*unit) == 0 ==> r is None,
        build_queue_count.count(*unit) != 0 ==> r == Some(build_queue_count.count(*unit) as usize),
{
    let count = build_queue_count.get(unit);
    if count == 0 {
        None
    } else {
        Some(count)
    }
}

} // verus!
