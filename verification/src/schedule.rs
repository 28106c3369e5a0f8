//! The trigger-based scheduler.
//!
//! The scheduler owns the single current-backend slot and a persisted,
//! ordered list of schedule items. A background loop (run by the
//! surrounding program) wakes on a fixed tick; the scheduler coalesces
//! ticks so that at most one trigger-evaluation pass runs per elapsed
//! wall-clock minute, decides which enabled items fire, and swaps the
//! active backend with a hard stop-before-start ordering.

use vstd::prelude::*;

use crate::config::WallpaperType;
use crate::error::AppError;
use crate::types::WallpaperInfo;
use crate::wallpapers::{backend_for, spec_backend_field_error, spec_source_of, ActiveWallpaper};

verus! {

/// A time-of-day trigger payload.
#[derive(Debug, Clone, Copy, PartialEq, Eq, Structural)]
pub struct TriggerTime {
    /// The hour, 0 to 23.
    pub hour: u8,
    /// The minute, 0 to 59.
    pub minute: u8,
}

impl TriggerType {
    /// An exact copy, variant for variant.
    pub fn duplicate(&self) -> (r: Self)
        ensures
            r == *self,
    {
        match self {
            TriggerType::Time(t) => TriggerType::Time(*t),
            TriggerType::Interval(d) => TriggerType::Interval(*d),
            TriggerType::SystemEvent(s) => TriggerType::SystemEvent(s.clone()),
            TriggerType::Custom(s) => TriggerType::Custom(s.clone()),
        }
    }
}

/// Schedule trigger type.
#[derive(Debug, Clone, PartialEq, Eq)]
pub enum TriggerType {
    /// Time-based trigger (hour and minute of day).
    Time(TriggerTime),
    /// Interval-based trigger, in seconds.
    Interval(u64),
    /// System event trigger (startup, shutdown, and the like); logged only.
    SystemEvent(String),
    /// Custom, user-defined trigger; logged only.
    Custom(String),
}

/// Schedule item: a trigger, the wallpaper it applies, and an enabled flag.
#[derive(Debug, Clone)]
pub struct ScheduleItem {
    /// Trigger type.
    pub trigger: TriggerType,
    /// Wallpaper information.
    pub wallpaper: WallpaperInfo,
    /// Whether the schedule item is enabled.
    pub enabled: bool,
}

impl ScheduleItem {
    /// An exact copy, field for field.
    pub fn duplicate(&self) -> (r: Self)
        ensures
            r == *self,
    {
        ScheduleItem {
            trigger: self.trigger.duplicate(),
            wallpaper: self.wallpaper.duplicate(),
            enabled: self.enabled,
        }
    }
}

/// One reading of the local wall clock.
#[derive(Debug, Clone, Copy, PartialEq, Eq, Structural)]
pub struct ClockReading {
    /// Seconds since the Unix epoch (zero for a clock set before it).
    pub secs: u64,
    /// The hour of day, 0 to 23.
    pub hour: u8,
    /// The minute of the hour, 0 to 59.
    pub minute: u8,
}

/// Relies on `std::time::SystemTime::now` and `duration_since` for the
/// seconds since the Unix epoch (the error for a clock set before it is
/// mapped to zero), and on chrono's `From<SystemTime> for DateTime<Local>`
/// conversion — which handles a pre-epoch clock without panicking — with
/// `chrono::Timelike::hour` (0 to 23) and `chrono::Timelike::minute`
/// (0 to 59) for the local wall-clock fields. The conversion consults the
/// system timezone database through `chrono::Local` and relies on that
/// lookup succeeding, as every local-time reading through chrono does.
#[verifier::external_body]
fn now_local() -> (r: ClockReading)
    ensures
        r.hour < 24,
        r.minute < 60,
{
    let system_now = std::time::SystemTime::now();
    let secs = match system_now.duration_since(std::time::UNIX_EPOCH) {
        Ok(elapsed) => elapsed.as_secs(),
        Err(_) => 0,
    };
    let now = chrono::DateTime::<chrono::Local>::from(system_now);
    ClockReading {
        secs,
        hour: u8::try_from(chrono::Timelike::hour(&now)).unwrap_or(0),
        minute: u8::try_from(chrono::Timelike::minute(&now)).unwrap_or(0),
    }
}

/// Whether a trigger fires at the given hour and minute of an evaluation
/// pass.
///
/// A time trigger fires when the wall-clock hour and minute both equal its
/// own — once per matching pass, with no catch-up for a pass that was
/// delayed past the minute. An interval trigger fires on every pass: no
/// per-item last-fired time is tracked, a documented compatibility choice.
/// System-event and custom triggers never fire here.
pub open spec fn spec_trigger_fires(t: TriggerType, hour: u8, minute: u8) -> bool {
    match t {
        TriggerType::Time(tt) => tt.hour == hour && tt.minute == minute,
        TriggerType::Interval(_) => true,
        TriggerType::SystemEvent(_) => false,
        TriggerType::Custom(_) => false,
    }
}

/// Whether an evaluation pass is due: at least one wall-clock minute has
/// elapsed since the last pass.
pub open spec fn spec_pass_due(last_secs: int, now_secs: int) -> bool {
    now_secs - last_secs >= 60
}

/// Law: two passes can never both run inside the same wall-clock minute —
/// once a pass runs at `t1`, no pass is due at any `t2` less than a minute
/// later.
pub proof fn lemma_no_double_pass_within_minute(t1: int, t2: int)
    requires
        t1 <= t2 < t1 + 60,
    ensures
        !spec_pass_due(t1, t2),
{
}

/// Law: of two ticks inside the same wall-clock minute, with a pass due at
/// the first, exactly the first runs a pass: the first is due and, the
/// last-pass time having moved to the first tick, the second is not.
pub proof fn lemma_exactly_one_pass_per_minute(last: int, t1: int, t2: int)
    requires
        last + 60 <= t1,
        t1 <= t2 < t1 + 60,
    ensures
        spec_pass_due(last, t1),
        !spec_pass_due(t1, t2),
{
}

/// Whether an evaluation pass fires the item at index `j`.
pub open spec fn spec_item_fires(items: Seq<ScheduleItem>, j: int, hour: u8, minute: u8) -> bool {
    items[j].enabled && spec_trigger_fires(items[j].trigger, hour, minute)
}

/// Trigger evaluation result: what one evaluation pass decided.
#[derive(Debug)]
pub struct EvaluationPass {
    /// The indices of the items that fired, in schedule order.
    pub fired: Vec<usize>,
}

/// Wallpaper scheduler.
///
/// The single current-backend slot lives here; every wallpaper change,
/// scheduled or manual, goes through it.
pub struct WallpaperScheduler {
    /// Schedule items, in persisted order.
    schedule_items: Vec<ScheduleItem>,
    /// The one currently active backend, if any.
    current_wallpaper: Option<ActiveWallpaper>,
    /// Whether the background loop should be running.
    is_running: bool,
    /// The wall-clock second of the last evaluation pass. A fresh
    /// scheduler counts the epoch as its last pass, so the first tick runs
    /// one.
    last_check_secs: u64,
}

/// The plan for one apply: the backend to stop, then the backend to start.
/// The stop completes before the start begins; two backends are never
/// attached to the desktop concurrently.
#[derive(Debug)]
pub struct ApplyPlan {
    /// The currently active backend to stop first, if any.
    pub stop_first: Option<ActiveWallpaper>,
    /// The backend to start once the stop has completed.
    pub start: ActiveWallpaper,
}

impl WallpaperScheduler {
    /// The schedule items, in order.
    pub closed spec fn spec_items(&self) -> Seq<ScheduleItem> {
        self.schedule_items@
    }

    /// The current-backend slot.
    pub closed spec fn spec_current(&self) -> Option<ActiveWallpaper> {
        self.current_wallpaper
    }

    /// Whether the background loop should be running.
    pub closed spec fn spec_is_running(&self) -> bool {
        self.is_running
    }

    /// The wall-clock second of the last evaluation pass.
    pub closed spec fn spec_last_check(&self) -> u64 {
        self.last_check_secs
    }

    /// Create a new scheduler: no items, an empty slot, the loop stopped.
    pub fn new() -> (r: Self)
        ensures
            r.spec_items().len() == 0,
            r.spec_current() is None,
            !r.spec_is_running(),
            r.spec_last_check() == 0,
    {
        WallpaperScheduler {
            schedule_items: Vec::new(),
            current_wallpaper: None,
            is_running: false,
            last_check_secs: 0,
        }
    }

    /// Whether the background loop should be running.
    pub fn is_running(&self) -> (r: bool)
        ensures
            r == self.spec_is_running(),
    {
        self.is_running
    }

    /// Replace the schedule with items read from the schedule store.
    pub fn set_schedule_items(&mut self, items: Vec<ScheduleItem>)
        ensures
            final(self).spec_items() == items@,
            final(self).spec_current() == old(self).spec_current(),
            final(self).spec_is_running() == old(self).spec_is_running(),
            final(self).spec_last_check() == old(self).spec_last_check(),
    {
        self.schedule_items = items;
    }

    /// The default schedule: a morning static wallpaper at 08:00 and an
    /// evening one at 18:00, both enabled.
    pub fn default_schedule_items() -> (r: Vec<ScheduleItem>)
        ensures
            r@.len() == 2,
            r@[0].trigger == TriggerType::Time(TriggerTime { hour: 8, minute: 0 }),
            r@[0].enabled,
            r@[0].wallpaper.kind == WallpaperType::Static,
            r@[0].wallpaper.name@ == "Morning"@,
            r@[0].wallpaper.path matches Some(p) && p@ == "assets/wallpapers/morning.jpg"@,
            r@[0].wallpaper.url is None,
            r@[1].trigger == TriggerType::Time(TriggerTime { hour: 18, minute: 0 }),
            r@[1].enabled,
            r@[1].wallpaper.kind == WallpaperType::Static,
            r@[1].wallpaper.name@ == "Evening"@,
            r@[1].wallpaper.path matches Some(p) && p@ == "assets/wallpapers/evening.jpg"@,
            r@[1].wallpaper.url is None,
            r@[0].wallpaper.is_well_formed(),
            r@[1].wallpaper.is_well_formed(),
    {
        let mut items: Vec<ScheduleItem> = Vec::new();
        items.push(
            ScheduleItem {
                trigger: TriggerType::Time(TriggerTime { hour: 8, minute: 0 }),
                wallpaper: WallpaperInfo {
                    name: "Morning".to_owned(),
                    description: "Morning wallpaper".to_owned(),
                    author: "Aether-Desk".to_owned(),
                    version: "1.0.0".to_owned(),
                    kind: WallpaperType::Static,
                    path: Some("assets/wallpapers/morning.jpg".to_owned()),
                    url: None,
                },
                enabled: true,
            },
        );
        items.push(
            ScheduleItem {
                trigger: TriggerType::Time(TriggerTime { hour: 18, minute: 0 }),
                wallpaper: WallpaperInfo {
                    name: "Evening".to_owned(),
                    description: "Evening wallpaper".to_owned(),
                    author: "Aether-Desk".to_owned(),
                    version: "1.0.0".to_owned(),
                    kind: WallpaperType::Static,
                    path: Some("assets/wallpapers/evening.jpg".to_owned()),
                    url: None,
                },
                enabled: true,
            },
        );
        items
    }

    /// Start the scheduler: the background loop should run. Starting an
    /// already running scheduler changes nothing.
    pub fn start(&mut self) -> (r: Result<(), AppError>)
        ensures
            final(self).spec_is_running(),
            final(self).spec_items() == old(self).spec_items(),
            final(self).spec_current() == old(self).spec_current(),
            final(self).spec_last_check() == old(self).spec_last_check(),
            r is Ok,
    {
        self.is_running = true;
        Ok(())
    }

    /// Stop the scheduler: the background loop should exit at its next
    /// wake-up and be joined — cooperatively, so an in-flight backend call
    /// finishes first. Stopping a stopped scheduler changes nothing.
    pub fn stop(&mut self) -> (r: Result<(), AppError>)
        ensures
            !final(self).spec_is_running(),
            final(self).spec_items() == old(self).spec_items(),
            final(self).spec_current() == old(self).spec_current(),
            final(self).spec_last_check() == old(self).spec_last_check(),
            r is Ok,
    {
        self.is_running = false;
        Ok(())
    }

    /// Add a schedule item at the end of the list.
    pub fn add_schedule_item(&mut self, item: ScheduleItem) -> (r: Result<(), AppError>)
        ensures
            final(self).spec_items() == old(self).spec_items().push(item),
            final(self).spec_current() == old(self).spec_current(),
            final(self).spec_is_running() == old(self).spec_is_running(),
            final(self).spec_last_check() == old(self).spec_last_check(),
            r is Ok,
    {
        self.schedule_items.push(item);
        Ok(())
    }

    /// Remove the schedule item at an index; an out-of-range index is
    /// rejected with nothing changed.
    pub fn remove_schedule_item(&mut self, index: usize) -> (r: Result<(), AppError>)
        ensures
            final(self).spec_current() == old(self).spec_current(),
            final(self).spec_is_running() == old(self).spec_is_running(),
            final(self).spec_last_check() == old(self).spec_last_check(),
            r is Ok <==> (index as int) < old(self).spec_items().len(),
            r is Ok ==> final(self).spec_items() == old(self).spec_items().remove(index as int),
            r is Err ==> final(self).spec_items() == old(self).spec_items() && (r matches Err(
                AppError::Other(m),
            ) && m@ == "Invalid schedule item index"@),
    {
        if index < self.schedule_items.len() {
            self.schedule_items.remove(index);
            Ok(())
        } else {
            Err(AppError::Other("Invalid schedule item index".to_owned()))
        }
    }

    /// Replace the schedule item at an index; an out-of-range index is
    /// rejected with nothing changed.
    pub fn update_schedule_item(&mut self, index: usize, item: ScheduleItem) -> (r: Result<
        (),
        AppError,
    >)
        ensures
            final(self).spec_current() == old(self).spec_current(),
            final(self).spec_is_running() == old(self).spec_is_running(),
            final(self).spec_last_check() == old(self).spec_last_check(),
            r is Ok <==> (index as int) < old(self).spec_items().len(),
            r is Ok ==> final(self).spec_items() == old(self).spec_items().update(
                index as int,
                item,
            ),
            r is Err ==> final(self).spec_items() == old(self).spec_items() && (r matches Err(
                AppError::Other(m),
            ) && m@ == "Invalid schedule item index"@),
    {
        if index < self.schedule_items.len() {
            self.schedule_items.remove(index);
            self.schedule_items.insert(index, item);
            proof {
                assert(self.schedule_items@ =~= old(self).schedule_items@.update(
                    index as int,
                    item,
                ));
            }
            Ok(())
        } else {
            Err(AppError::Other("Invalid schedule item index".to_owned()))
        }
    }

    /// Get all schedule items.
    pub fn get_schedule_items(&self) -> (r: Vec<ScheduleItem>)
        ensures
            r@ == self.spec_items(),
    {
        let n = self.schedule_items.len();
        let mut r: Vec<ScheduleItem> = Vec::new();
        let mut i: usize = 0;
        while i < n
            invariant
                i <= n,
                n == self.schedule_items@.len(),
                r@ == self.schedule_items@.take(i as int),
            decreases n - i,
        {
            r.push(self.schedule_items[i].duplicate());
            proof {
                assert(self.schedule_items@.take(i + 1) =~= self.schedule_items@.take(
                    i as int,
                ).push(self.schedule_items@[i as int]));
            }
            i = i + 1;
        }
        proof {
            assert(self.schedule_items@.take(n as int) =~= self.schedule_items@);
        }
        r
    }

    /// The current-backend slot, as the surrounding program sees it.
    pub fn get_current_wallpaper(&self) -> (r: Option<ActiveWallpaper>)
        ensures
            r == self.spec_current(),
    {
        match &self.current_wallpaper {
            Some(a) => Some(a.duplicate()),
            None => None,
        }
    }

    /// Decide which enabled items fire at the given hour and minute: one
    /// inspection per item, in schedule order.
    pub fn due_items(&self, hour: u8, minute: u8) -> (r: EvaluationPass)
        ensures
            forall|k: int| 0 <= k < r.fired@.len() ==> (r.fired@[k] as int) < self.spec_items().len(),
            forall|k1: int, k2: int|
                0 <= k1 < k2 < r.fired@.len() ==> r.fired@[k1] < r.fired@[k2],
            forall|j: int|
                0 <= j < self.spec_items().len() ==> (r.fired@.contains(j as usize)
                    <==> spec_item_fires(self.spec_items(), j, hour, minute)),
    {
        let n = self.schedule_items.len();
        let mut fired: Vec<usize> = Vec::new();
        let mut j: usize = 0;
        while j < n
            invariant
                j <= n,
                n == self.schedule_items@.len(),
                forall|k: int| 0 <= k < fired@.len() ==> (fired@[k] as int) < j,
                forall|k1: int, k2: int|
                    0 <= k1 < k2 < fired@.len() ==> fired@[k1] < fired@[k2],
                forall|i: int|
                    0 <= i < j ==> (fired@.contains(i as usize) <==> spec_item_fires(
                        self.schedule_items@,
                        i,
                        hour,
                        minute,
                    )),
            decreases n - j,
        {
            let item = &self.schedule_items[j];
            let fires = item.enabled && match &item.trigger {
                TriggerType::Time(t) => t.hour == hour && t.minute == minute,
                TriggerType::Interval(_) => true,
                TriggerType::SystemEvent(_) => false,
                TriggerType::Custom(_) => false,
            };
            let ghost pre = fired@;
            if fires {
                fired.push(j);
            }
            proof {
                assert forall|i: int|
                    0 <= i < j + 1 implies (fired@.contains(i as usize) <==> spec_item_fires(
                    self.schedule_items@,
                    i,
                    hour,
                    minute,
                )) by {
                    if fires {
                        assert(fired@ == pre.push(j as usize));
                        if i < j {
                            assert(fired@.contains(i as usize) <==> pre.contains(i as usize))
                                by {
                                if pre.contains(i as usize) {
                                    let w = choose|w: int|
                                        0 <= w < pre.len() && pre[w] == i as usize;
                                    assert(fired@[w] == i as usize);
                                } else if fired@.contains(i as usize) {
                                    let w = choose|w: int|
                                        0 <= w < fired@.len() && fired@[w] == i as usize;
                                    assert(w < pre.len());
                                }
                            }
                        } else {
                            assert(fired@[fired@.len() - 1] == j as usize);
                        }
                    } else {
                        if i == j && fired@.contains(i as usize) {
                            let w = choose|w: int|
                                0 <= w < fired@.len() && fired@[w] == i as usize;
                            assert((fired@[w] as int) < j);
                        }
                    }
                }
            }
            j = j + 1;
        }
        EvaluationPass { fired }
    }

    /// One scheduler tick at a given clock reading: when the loop is
    /// running and at least a minute has elapsed since the last pass, run
    /// exactly one evaluation pass and move the last-pass time to this
    /// reading; otherwise do nothing.
    pub fn tick(&mut self, now: ClockReading) -> (r: Option<EvaluationPass>)
        ensures
            final(self).spec_items() == old(self).spec_items(),
            final(self).spec_current() == old(self).spec_current(),
            final(self).spec_is_running() == old(self).spec_is_running(),
            r is Some <==> old(self).spec_is_running() && spec_pass_due(
                old(self).spec_last_check() as int,
                now.secs as int,
            ),
            final(self).spec_last_check() == (if old(self).spec_is_running() && spec_pass_due(
                old(self).spec_last_check() as int,
                now.secs as int,
            ) {
                now.secs
            } else {
                old(self).spec_last_check()
            }),
            match r {
                Some(pass) => {
                    &&& forall|k: int|
                        0 <= k < pass.fired@.len() ==> (pass.fired@[k] as int)
                            < old(self).spec_items().len()
                    &&& forall|k1: int, k2: int|
                        0 <= k1 < k2 < pass.fired@.len() ==> pass.fired@[k1] < pass.fired@[k2]
                    &&& forall|j: int|
                        0 <= j < old(self).spec_items().len() ==> (pass.fired@.contains(j as usize)
                            <==> spec_item_fires(old(self).spec_items(), j, now.hour, now.minute))
                },
                None => true,
            },
    {
        if !self.is_running {
            return None;
        }
        if now.secs >= self.last_check_secs && now.secs - self.last_check_secs >= 60 {
            self.last_check_secs = now.secs;
            Some(self.due_items(now.hour, now.minute))
        } else {
            None
        }
    }

    /// One iteration of the background loop: read the wall clock and tick.
    /// Whatever the clock returns, the items, the slot and the running flag
    /// are untouched; a pass runs only when one was due at the reading that
    /// is handed back with it, and fires exactly the enabled items whose
    /// triggers match that reading.
    pub fn run_tick(&mut self) -> (r: Option<(ClockReading, EvaluationPass)>)
        ensures
            final(self).spec_items() == old(self).spec_items(),
            final(self).spec_current() == old(self).spec_current(),
            final(self).spec_is_running() == old(self).spec_is_running(),
            match r {
                Some(res) => {
                    &&& old(self).spec_is_running()
                    &&& res.0.hour < 24 && res.0.minute < 60
                    &&& spec_pass_due(old(self).spec_last_check() as int, res.0.secs as int)
                    &&& final(self).spec_last_check() == res.0.secs
                    &&& forall|k: int|
                        0 <= k < res.1.fired@.len() ==> (res.1.fired@[k] as int)
                            < old(self).spec_items().len()
                    &&& forall|k1: int, k2: int|
                        0 <= k1 < k2 < res.1.fired@.len() ==> res.1.fired@[k1]
                            < res.1.fired@[k2]
                    &&& forall|j: int|
                        0 <= j < old(self).spec_items().len() ==> (res.1.fired@.contains(
                            j as usize,
                        ) <==> spec_item_fires(old(self).spec_items(), j, res.0.hour, res.0.minute))
                },
                None => final(self).spec_last_check() == old(self).spec_last_check(),
            },
    {
        let now = now_local();
        match self.tick(now) {
            Some(pass) => Some((now, pass)),
            None => None,
        }
    }

    /// Plan a wallpaper apply for the item's description: the current
    /// backend, if any, is to be stopped first, and only then the new
    /// backend started. A description missing the field its kind requires
    /// is rejected, with the slot untouched.
    pub fn plan_apply(&self, info: &WallpaperInfo) -> (r: Result<ApplyPlan, AppError>)
        ensures
            r is Ok <==> info.is_well_formed(),
            match r {
                Ok(plan) => {
                    &&& plan.stop_first == self.spec_current()
                    &&& plan.start.kind == info.kind
                    &&& plan.start.source@ == spec_source_of(*info)
                    &&& plan.start.pid is None
                },
                Err(e) => (e matches AppError::WallpaperError(m) && m@ == spec_backend_field_error(
                    *info,
                )),
            },
    {
        let start = backend_for(info)?;
        Ok(ApplyPlan { stop_first: self.get_current_wallpaper(), start })
    }

    /// Commit an apply once the surrounding program has stopped the old
    /// backend and tried to start the new one. On a successful start the
    /// slot holds exactly the new backend (with any discovered pid); on a
    /// failed start the slot keeps whatever it held before the pass — no
    /// partial swap.
    pub fn commit_apply(&mut self, plan: ApplyPlan, started: Result<Option<u32>, AppError>) -> (r:
        Result<(), AppError>)
        ensures
            final(self).spec_items() == old(self).spec_items(),
            final(self).spec_is_running() == old(self).spec_is_running(),
            final(self).spec_last_check() == old(self).spec_last_check(),
            match started {
                Ok(pid) => r is Ok && final(self).spec_current() == Some(
                    ActiveWallpaper { kind: plan.start.kind, source: plan.start.source, pid },
                ),
                Err(e) => r == Err::<(), AppError>(e) && final(self).spec_current() == old(
                    self,
                ).spec_current(),
            },
    {
        match started {
            Ok(pid) => {
                self.current_wallpaper = Some(
                    ActiveWallpaper { kind: plan.start.kind, source: plan.start.source, pid },
                );
                Ok(())
            },
            Err(e) => Err(e),
        }
    }

    /// Clear the current-backend slot. Stopping is best-effort: even after
    /// a failed stop the slot is cleared, so the scheduler can proceed.
    pub fn clear_current(&mut self)
        ensures
            final(self).spec_items() == old(self).spec_items(),
            final(self).spec_is_running() == old(self).spec_is_running(),
            final(self).spec_last_check() == old(self).spec_last_check(),
            final(self).spec_current() is None,
    {
        self.current_wallpaper = None;
    }
}

} // verus!
