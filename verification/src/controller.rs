//! The reactive controller: it owns the view model behind a try-access
//! handle, a virtual millisecond clock, and the three scheduled tasks —
//! the repeating clock refresh, the repeating shimmer step (registered only
//! when motion is not reduced), and the single-shot toast dismissal.
//!
//! Every unit of work runs to completion synchronously when the event loop
//! fires it; the loop itself lives outside this crate and only calls
//! `next_deadline`, `advance_to` and the `fire_*` methods.

use vstd::prelude::*;

use crate::apps::{normalize_app_id, spec_normalize, spec_toast_text, toast_message};
use crate::clock::{format_date, format_time, read_local_clock, spec_date_text, spec_time_text,
    ClockReading};
use crate::timer::{OneShotTimer, PendingTask};

verus! {

/// Milliseconds between clock refreshes.
pub const CLOCK_PERIOD_MS: u64 = 1000;

/// Milliseconds between shimmer phase steps.
pub const SHIMMER_PERIOD_MS: u64 = 1800;

/// Default lifetime of a toast before its dismissal fires.
pub const DEFAULT_TOAST_DELAY_MS: u64 = 1000;

/// The rendered state store: every field is independently bindable by the
/// rendering layer, and only the controller writes them.
pub struct ViewModel {
    pub time_text: String,
    pub date_text: String,
    pub toast_text: String,
    pub toast_visible: bool,
    pub shade_open: bool,
    pub current_app_id: String,
    pub app_open: bool,
    pub lock_shimmer_phase: u32,
    pub reduce_motion: bool,
    pub app_version: String,
    pub runtime_os: String,
    pub runtime_arch: String,
    pub runtime_platform: String,
}

/// The startup configuration, captured once at process entry.
pub struct Config {
    pub reduce_motion: bool,
    pub toast_delay_ms: u64,
    pub app_version: String,
    pub runtime_os: String,
    pub runtime_arch: String,
}

/// Which scheduled task the event loop should run next.
#[derive(Clone, Copy, PartialEq, Eq, Structural, Debug)]
pub enum TaskKind {
    ClockTick,
    ShimmerTick,
    ToastDismiss,
}

/// The controller state: the view model behind a non-owning handle
/// (`None` once the UI surface is torn down), the fixed startup switches,
/// and the scheduled work under a virtual clock.
pub struct Controller {
    pub vm: Option<ViewModel>,
    pub reduce_motion: bool,
    pub toast_delay_ms: u64,
    /// Virtual clock, in milliseconds since startup.
    pub now_ms: u64,
    /// Due time of the repeating clock task.
    pub clock_next_ms: u64,
    /// Due time of the repeating shimmer task; `None` when reduced motion
    /// kept the animator from ever being registered.
    pub shimmer_next_ms: Option<u64>,
    /// The single-shot dismissal slot for the toast.
    pub toast_timer: OneShotTimer,
}

/// The phase counter after one shimmer step: it increments and wraps at the
/// counter's maximum, it never sticks or fails.
pub open spec fn shimmer_step(p: u32) -> u32 {
    p.wrapping_add(1)
}

/// The phase counter after `n` shimmer steps from `start`.
pub open spec fn shimmer_after(start: u32, n: nat) -> u32
    decreases n,
{
    if n == 0 {
        start
    } else {
        shimmer_step(shimmer_after(start, (n - 1) as nat))
    }
}

impl Controller {
    /// The controller invariant: a reduced-motion controller never has a
    /// shimmer task, and the view model mirrors the fixed motion switch.
    pub open spec fn wf(self) -> bool {
        &&& (self.reduce_motion ==> self.shimmer_next_ms is None)
        &&& (self.vm is Some ==> self.vm.unwrap().reduce_motion == self.reduce_motion)
    }

    /// Builds the controller from the captured configuration and a first
    /// wall-clock reading; the first clock formatting happens here, at
    /// startup, not after the first tick. The shimmer task is registered
    /// if and only if motion is not reduced.
    pub fn new(config: Config, first: &ClockReading) -> (c: Controller)
        requires
            first.wf(),
        ensures
            c.wf(),
            c.vm is Some,
            c.vm.unwrap().time_text@ == spec_time_text(first.hour, first.minute),
            c.vm.unwrap().date_text@ == spec_date_text(first.weekday, first.day, first.month),
            c.vm.unwrap().toast_text@ == Seq::<char>::empty(),
            c.vm.unwrap().toast_visible == false,
            c.vm.unwrap().shade_open == false,
            c.vm.unwrap().current_app_id@ == Seq::<char>::empty(),
            c.vm.unwrap().app_open == false,
            c.vm.unwrap().lock_shimmer_phase == 0,
            c.vm.unwrap().reduce_motion == config.reduce_motion,
            c.vm.unwrap().app_version == config.app_version,
            c.vm.unwrap().runtime_os == config.runtime_os,
            c.vm.unwrap().runtime_arch == config.runtime_arch,
            c.vm.unwrap().runtime_platform@ == config.runtime_os@ + "/"@ + config.runtime_arch@,
            c.reduce_motion == config.reduce_motion,
            c.toast_delay_ms == config.toast_delay_ms,
            c.now_ms == 0,
            c.clock_next_ms == CLOCK_PERIOD_MS,
            c.shimmer_next_ms == (if config.reduce_motion {
                Option::<u64>::None
            } else {
                Option::<u64>::Some(SHIMMER_PERIOD_MS)
            }),
            c.toast_timer.pending is None,
    {
        let mut platform = config.runtime_os.clone();
        platform.append("/");
        platform.append(config.runtime_arch.as_str());
        let vm = ViewModel {
            time_text: format_time(first.hour, first.minute),
            date_text: format_date(first.weekday, first.day, first.month),
            toast_text: String::new(),
            toast_visible: false,
            shade_open: false,
            current_app_id: String::new(),
            app_open: false,
            lock_shimmer_phase: 0,
            reduce_motion: config.reduce_motion,
            app_version: config.app_version,
            runtime_os: config.runtime_os,
            runtime_arch: config.runtime_arch,
            runtime_platform: platform,
        };
        Controller {
            vm: Some(vm),
            reduce_motion: config.reduce_motion,
            toast_delay_ms: config.toast_delay_ms,
            now_ms: 0,
            clock_next_ms: CLOCK_PERIOD_MS,
            shimmer_next_ms: if config.reduce_motion { None } else { Some(SHIMMER_PERIOD_MS) },
            toast_timer: OneShotTimer::new(),
        }
    }

    /// Moves the virtual clock forward; nothing else changes.
    pub fn advance_to(&mut self, t_ms: u64)
        requires
            old(self).now_ms <= t_ms,
        ensures
            *final(self) == (Controller { now_ms: t_ms, ..*old(self) }),
    {
        self.now_ms = t_ms;
    }

    /// Drops the view-model handle, as when the UI surface is torn down:
    /// every later callback finds no surface and performs no write.
    pub fn tear_down(&mut self)
        ensures
            *final(self) == (Controller { vm: Option::<ViewModel>::None, ..*old(self) }),
    {
        self.vm = None;
    }

    /// The due time and kind of the next scheduled task. The earliest due
    /// time wins; on a tie the clock runs first, then the shimmer, then the
    /// toast dismissal.
    pub open spec fn spec_next_deadline(self) -> (u64, TaskKind) {
        let against_clock = if self.shimmer_next_ms is Some
            && self.shimmer_next_ms.unwrap() < self.clock_next_ms {
            (self.shimmer_next_ms.unwrap(), TaskKind::ShimmerTick)
        } else {
            (self.clock_next_ms, TaskKind::ClockTick)
        };
        if self.toast_timer.pending is Some
            && self.toast_timer.pending.unwrap().due_ms < against_clock.0 {
            (self.toast_timer.pending.unwrap().due_ms, TaskKind::ToastDismiss)
        } else {
            against_clock
        }
    }

    /// Picks the next task for the event loop to run.
    pub fn next_deadline(&self) -> (r: (u64, TaskKind))
        ensures
            r == self.spec_next_deadline(),
    {
        let mut due: u64 = self.clock_next_ms;
        let mut kind = TaskKind::ClockTick;
        match self.shimmer_next_ms {
            Some(s) => {
                if s < due {
                    due = s;
                    kind = TaskKind::ShimmerTick;
                }
            },
            None => {},
        }
        match self.toast_timer.pending {
            Some(p) => {
                if p.due_ms < due {
                    due = p.due_ms;
                    kind = TaskKind::ToastDismiss;
                }
            },
            None => {},
        }
        (due, kind)
    }

    /// Runs the clock task against the given wall-clock reading: when the
    /// surface is alive, both clock strings are rewritten and nothing else
    /// in the view model changes; when it is gone, nothing is written.
    /// Either way the task is rescheduled one period ahead.
    pub fn fire_clock(&mut self, now: &ClockReading)
        requires
            old(self).wf(),
            now.wf(),
            old(self).clock_next_ms <= old(self).now_ms,
        ensures
            final(self).wf(),
            final(self).clock_next_ms == old(self).clock_next_ms.saturating_add(CLOCK_PERIOD_MS),
            final(self).now_ms == old(self).now_ms,
            final(self).reduce_motion == old(self).reduce_motion,
            final(self).toast_delay_ms == old(self).toast_delay_ms,
            final(self).shimmer_next_ms == old(self).shimmer_next_ms,
            final(self).toast_timer == old(self).toast_timer,
            old(self).vm is None ==> final(self).vm is None,
            old(self).vm is Some ==> {
                &&& final(self).vm is Some
                &&& final(self).vm.unwrap() == (ViewModel {
                    time_text: final(self).vm.unwrap().time_text,
                    date_text: final(self).vm.unwrap().date_text,
                    ..old(self).vm.unwrap()
                })
                &&& final(self).vm.unwrap().time_text@ == spec_time_text(now.hour, now.minute)
                &&& final(self).vm.unwrap().date_text@ == spec_date_text(
                    now.weekday,
                    now.day,
                    now.month,
                )
            },
    {
        if self.vm.is_some() {
            let mut vm = self.vm.take().unwrap();
            vm.time_text = format_time(now.hour, now.minute);
            vm.date_text = format_date(now.weekday, now.day, now.month);
            self.vm = Some(vm);
        }
        self.clock_next_ms = self.clock_next_ms.saturating_add(CLOCK_PERIOD_MS);
    }

    /// Runs the clock task against the real local wall clock.
    pub fn fire_clock_now(&mut self)
        requires
            old(self).wf(),
            old(self).clock_next_ms <= old(self).now_ms,
        ensures
            final(self).wf(),
            final(self).clock_next_ms == old(self).clock_next_ms.saturating_add(CLOCK_PERIOD_MS),
            final(self).now_ms == old(self).now_ms,
            final(self).reduce_motion == old(self).reduce_motion,
            final(self).toast_delay_ms == old(self).toast_delay_ms,
            final(self).shimmer_next_ms == old(self).shimmer_next_ms,
            final(self).toast_timer == old(self).toast_timer,
            old(self).vm is None ==> final(self).vm is None,
            old(self).vm is Some ==> {
                &&& final(self).vm is Some
                &&& final(self).vm.unwrap() == (ViewModel {
                    time_text: final(self).vm.unwrap().time_text,
                    date_text: final(self).vm.unwrap().date_text,
                    ..old(self).vm.unwrap()
                })
                &&& final(self).vm.unwrap().time_text@.len() == 5
            },
    {
        let reading = read_local_clock();
        self.fire_clock(&reading);
        proof {
            assert(spec_time_text(reading.hour, reading.minute).len() == 5);
        }
    }

    /// Runs one shimmer step. The task only exists when motion is not
    /// reduced, so under the invariant this method can never touch the
    /// phase counter of a reduced-motion controller.
    pub fn fire_shimmer(&mut self)
        requires
            old(self).wf(),
            old(self).shimmer_next_ms is Some,
            old(self).shimmer_next_ms.unwrap() <= old(self).now_ms,
        ensures
            final(self).wf(),
            final(self).shimmer_next_ms == Some(
                old(self).shimmer_next_ms.unwrap().saturating_add(SHIMMER_PERIOD_MS),
            ),
            final(self).now_ms == old(self).now_ms,
            final(self).reduce_motion == old(self).reduce_motion,
            final(self).toast_delay_ms == old(self).toast_delay_ms,
            final(self).clock_next_ms == old(self).clock_next_ms,
            final(self).toast_timer == old(self).toast_timer,
            old(self).vm is None ==> final(self).vm is None,
            old(self).vm is Some ==> {
                &&& final(self).vm is Some
                &&& final(self).vm.unwrap() == (ViewModel {
                    lock_shimmer_phase: shimmer_step(old(self).vm.unwrap().lock_shimmer_phase),
                    ..old(self).vm.unwrap()
                })
            },
    {
        if self.vm.is_some() {
            let mut vm = self.vm.take().unwrap();
            vm.lock_shimmer_phase = vm.lock_shimmer_phase.wrapping_add(1);
            self.vm = Some(vm);
        }
        let next = match self.shimmer_next_ms {
            Some(s) => s.saturating_add(SHIMMER_PERIOD_MS),
            None => 0,
        };
        self.shimmer_next_ms = Some(next);
    }

    /// Runs the pending toast dismissal: the toast is hidden, the slot is
    /// cleared, and every other view-model field — the app state included —
    /// stays as it was.
    pub fn fire_toast_dismiss(&mut self)
        requires
            old(self).wf(),
            old(self).toast_timer.pending is Some,
            old(self).toast_timer.pending.unwrap().due_ms <= old(self).now_ms,
        ensures
            final(self).wf(),
            final(self).toast_timer.pending is None,
            final(self).toast_timer.next_handle == old(self).toast_timer.next_handle,
            final(self).now_ms == old(self).now_ms,
            final(self).reduce_motion == old(self).reduce_motion,
            final(self).toast_delay_ms == old(self).toast_delay_ms,
            final(self).clock_next_ms == old(self).clock_next_ms,
            final(self).shimmer_next_ms == old(self).shimmer_next_ms,
            old(self).vm is None ==> final(self).vm is None,
            old(self).vm is Some ==> {
                &&& final(self).vm is Some
                &&& final(self).vm.unwrap() == (ViewModel {
                    toast_visible: false,
                    ..old(self).vm.unwrap()
                })
            },
    {
        if self.vm.is_some() {
            let mut vm = self.vm.take().unwrap();
            vm.toast_visible = false;
            self.vm = Some(vm);
        }
        self.toast_timer.clear();
    }

    /// Handles a tile activation. When the surface is alive: the shade
    /// closes, the current app id becomes the canonical id for `label`,
    /// the app is marked open, the toast shows the original label, and the
    /// dismissal is scheduled `toast_delay_ms` from now — superseding any
    /// pending dismissal, so exactly one can ever fire per activation.
    /// When the surface is gone the call is a complete no-op.
    pub fn activate(&mut self, label: &str)
        requires
            old(self).wf(),
        ensures
            final(self).wf(),
            final(self).now_ms == old(self).now_ms,
            final(self).reduce_motion == old(self).reduce_motion,
            final(self).toast_delay_ms == old(self).toast_delay_ms,
            final(self).clock_next_ms == old(self).clock_next_ms,
            final(self).shimmer_next_ms == old(self).shimmer_next_ms,
            old(self).vm is None ==> *final(self) == *old(self),
            old(self).vm is Some ==> {
                &&& final(self).vm is Some
                &&& final(self).vm.unwrap() == (ViewModel {
                    shade_open: false,
                    current_app_id: final(self).vm.unwrap().current_app_id,
                    app_open: true,
                    toast_text: final(self).vm.unwrap().toast_text,
                    toast_visible: true,
                    ..old(self).vm.unwrap()
                })
                &&& final(self).vm.unwrap().current_app_id@ == spec_normalize(label@)
                &&& final(self).vm.unwrap().toast_text@ == spec_toast_text(label@)
                &&& final(self).toast_timer.pending == Some(PendingTask {
                    handle: old(self).toast_timer.next_handle,
                    due_ms: old(self).now_ms.saturating_add(old(self).toast_delay_ms),
                })
                &&& final(self).toast_timer.next_handle
                    == old(self).toast_timer.next_handle.saturating_add(1)
            },
    {
        if self.vm.is_some() {
            let mut vm = self.vm.take().unwrap();
            let app_id = normalize_app_id(label);
            vm.shade_open = false;
            vm.current_app_id = String::from_str(app_id);
            vm.app_open = true;
            vm.toast_text = toast_message(label);
            vm.toast_visible = true;
            self.vm = Some(vm);
            let pending = self.toast_timer.pending;
            match pending {
                Some(p) => self.toast_timer.cancel(p.handle),
                None => {},
            }
            let _handle = self.toast_timer.schedule(self.now_ms, self.toast_delay_ms);
        }
    }
}

/// Builds the controller from the startup configuration and the current
/// local wall-clock time.
pub fn startup(config: Config) -> (c: Controller)
    ensures
        c.wf(),
        c.vm is Some,
        c.vm.unwrap().time_text@.len() == 5,
        c.vm.unwrap().toast_text@ == Seq::<char>::empty(),
        c.vm.unwrap().toast_visible == false,
        c.vm.unwrap().shade_open == false,
        c.vm.unwrap().current_app_id@ == Seq::<char>::empty(),
        c.vm.unwrap().app_open == false,
        c.vm.unwrap().lock_shimmer_phase == 0,
        c.vm.unwrap().reduce_motion == config.reduce_motion,
        c.vm.unwrap().app_version == config.app_version,
        c.vm.unwrap().runtime_os == config.runtime_os,
        c.vm.unwrap().runtime_arch == config.runtime_arch,
        c.vm.unwrap().runtime_platform@ == config.runtime_os@ + "/"@ + config.runtime_arch@,
        c.reduce_motion == config.reduce_motion,
        c.toast_delay_ms == config.toast_delay_ms,
        c.now_ms == 0,
        c.clock_next_ms == CLOCK_PERIOD_MS,
        c.shimmer_next_ms == (if config.reduce_motion {
            Option::<u64>::None
        } else {
            Option::<u64>::Some(SHIMMER_PERIOD_MS)
        }),
        c.toast_timer.pending is None,
{
    let first = read_local_clock();
    let c = Controller::new(config, &first);
    proof {
        assert(spec_time_text(first.hour, first.minute).len() == 5);
    }
    c
}

/// Under the controller invariant, a reduced-motion controller has no
/// shimmer task at all: the animator was never registered, so no method can
/// meet `fire_shimmer`'s precondition and the phase counter is never
/// written for the process lifetime.
pub proof fn lemma_reduced_motion_has_no_shimmer_task(c: Controller)
    requires
        c.wf(),
        c.reduce_motion,
    ensures
        c.shimmer_next_ms is None,
{
}

/// Repeated shimmer steps advance the phase by exactly the number of steps,
/// modulo the counter's range: the counter wraps to zero past its maximum
/// and never sticks or skips.
pub proof fn lemma_shimmer_after_modular(start: u32, n: nat)
    ensures
        shimmer_after(start, n) == ((start + n) % 0x1_0000_0000) as u32,
    decreases n,
{
    if n == 0 {
        assert((start + 0) % 0x1_0000_0000 == start) by {
            assert(start < 0x1_0000_0000);
        };
    } else {
        lemma_shimmer_after_modular(start, (n - 1) as nat);
        let prev = shimmer_after(start, (n - 1) as nat);
        assert(prev == ((start + (n - 1)) % 0x1_0000_0000) as u32);
        vstd::arithmetic::div_mod::lemma_add_mod_noop(
            start as int + (n - 1),
            1,
            0x1_0000_0000,
        );
        if prev == u32::MAX {
            assert(shimmer_after(start, n) == 0);
            assert((start + n) % 0x1_0000_0000 == 0) by {
                assert((prev + 1) % 0x1_0000_0000 == 0);
            };
        } else {
            assert(shimmer_after(start, n) == prev + 1);
            assert((start + n) % 0x1_0000_0000 == prev + 1) by {
                assert((prev + 1) % 0x1_0000_0000 == prev + 1) by {
                    assert(prev + 1 < 0x1_0000_0000);
                };
            };
        }
    }
}

} // verus!
