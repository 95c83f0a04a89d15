use homescreen_core::apps::normalize_app_id;
use homescreen_core::clock::ClockReading;
use homescreen_core::controller::{
    startup, Config, Controller, TaskKind, CLOCK_PERIOD_MS, DEFAULT_TOAST_DELAY_MS,
    SHIMMER_PERIOD_MS,
};

fn config(reduce_motion: bool) -> Config {
    Config {
        reduce_motion,
        toast_delay_ms: DEFAULT_TOAST_DELAY_MS,
        app_version: "1.2.3".to_string(),
        runtime_os: "linux".to_string(),
        runtime_arch: "x86_64".to_string(),
    }
}

fn reading() -> ClockReading {
    ClockReading { hour: 12, minute: 34, day: 12, month: 3, weekday: 2 }
}

/// Drives the event loop up to and including virtual time `until_ms`,
/// returning the times at which a toast dismissal fired.
fn run_until(c: &mut Controller, until_ms: u64) -> Vec<u64> {
    let mut dismissals = Vec::new();
    loop {
        let (due, kind) = c.next_deadline();
        if due > until_ms {
            break;
        }
        c.advance_to(due);
        match kind {
            TaskKind::ClockTick => c.fire_clock(&reading()),
            TaskKind::ShimmerTick => c.fire_shimmer(),
            TaskKind::ToastDismiss => {
                c.fire_toast_dismiss();
                dismissals.push(due);
            }
        }
    }
    dismissals
}

#[test]
fn startup_formats_clock_synchronously() {
    let c = Controller::new(config(false), &reading());
    let vm = c.vm.as_ref().unwrap();
    assert_eq!(vm.time_text, "12:34");
    assert_eq!(vm.date_text, "Вт, 12 мар");
    assert_eq!(vm.toast_text, "");
    assert!(!vm.toast_visible);
    assert!(!vm.shade_open);
    assert_eq!(vm.current_app_id, "");
    assert!(!vm.app_open);
    assert_eq!(vm.lock_shimmer_phase, 0);
    assert_eq!(vm.app_version, "1.2.3");
    assert_eq!(vm.runtime_platform, "linux/x86_64");
    assert_eq!(c.clock_next_ms, CLOCK_PERIOD_MS);
    assert_eq!(c.shimmer_next_ms, Some(SHIMMER_PERIOD_MS));
    assert!(c.toast_timer.pending.is_none());
}

#[test]
fn clock_tick_rewrites_both_strings() {
    let mut c = Controller::new(config(false), &reading());
    c.advance_to(CLOCK_PERIOD_MS);
    c.fire_clock(&ClockReading { hour: 23, minute: 59, day: 31, month: 12, weekday: 7 });
    let vm = c.vm.as_ref().unwrap();
    assert_eq!(vm.time_text, "23:59");
    assert_eq!(vm.date_text, "Вс, 31 дек");
    assert_eq!(c.clock_next_ms, 2 * CLOCK_PERIOD_MS);
}

#[test]
fn reduced_motion_never_registers_the_animator() {
    let mut c = Controller::new(config(true), &reading());
    assert_eq!(c.shimmer_next_ms, None);
    assert!(c.vm.as_ref().unwrap().reduce_motion);
    // Run the loop for a while: no deadline is ever a shimmer tick and the
    // phase counter is never written.
    let dismissals = run_until(&mut c, 10_000);
    assert!(dismissals.is_empty());
    assert_eq!(c.shimmer_next_ms, None);
    assert_eq!(c.vm.as_ref().unwrap().lock_shimmer_phase, 0);
}

#[test]
fn shimmer_ticks_advance_phase_by_one_each() {
    let mut c = Controller::new(config(false), &reading());
    run_until(&mut c, 4 * SHIMMER_PERIOD_MS);
    // Four shimmer deadlines passed: 1800, 3600, 5400, 7200.
    assert_eq!(c.vm.as_ref().unwrap().lock_shimmer_phase, 4);
    assert_eq!(c.shimmer_next_ms, Some(5 * SHIMMER_PERIOD_MS));
}

#[test]
fn shimmer_phase_wraps_at_counter_maximum() {
    let mut c = Controller::new(config(false), &reading());
    c.vm.as_mut().unwrap().lock_shimmer_phase = u32::MAX;
    c.advance_to(SHIMMER_PERIOD_MS);
    c.fire_shimmer();
    assert_eq!(c.vm.as_ref().unwrap().lock_shimmer_phase, 0);
}

#[test]
fn activation_with_localized_label() {
    let mut c = Controller::new(config(false), &reading());
    c.activate("Терминал");
    {
        let vm = c.vm.as_ref().unwrap();
        assert_eq!(vm.current_app_id, "terminal");
        assert!(!vm.shade_open);
        assert!(vm.app_open);
        assert_eq!(vm.toast_text, "Открыто: Терминал");
        assert!(vm.toast_visible);
    }
    // After the configured delay elapses with no further activation, the
    // toast hides and the app state stays as it was.
    let dismissals = run_until(&mut c, 2_000);
    assert_eq!(dismissals, vec![DEFAULT_TOAST_DELAY_MS]);
    let vm = c.vm.as_ref().unwrap();
    assert!(!vm.toast_visible);
    assert_eq!(vm.current_app_id, "terminal");
    assert!(vm.app_open);
    assert!(!vm.shade_open);
    assert_eq!(vm.toast_text, "Открыто: Терминал");
}

#[test]
fn activation_with_unmapped_label_passes_through() {
    let mut c = Controller::new(config(false), &reading());
    c.activate("calculator");
    let vm = c.vm.as_ref().unwrap();
    assert_eq!(vm.current_app_id, "calculator");
    assert_eq!(vm.toast_text, "Открыто: calculator");
    assert!(vm.toast_visible);
}

#[test]
fn second_show_supersedes_pending_dismissal() {
    let mut c = Controller::new(config(false), &reading());
    c.activate("X");
    c.advance_to(200);
    c.activate("Y");
    // Exactly one dismissal fires, one delay after the second call; the
    // first call's dismissal never fires.
    let dismissals = run_until(&mut c, 3_000);
    assert_eq!(dismissals, vec![200 + DEFAULT_TOAST_DELAY_MS]);
    let vm = c.vm.as_ref().unwrap();
    assert!(!vm.toast_visible);
    assert_eq!(vm.toast_text, "Открыто: Y");
    assert_eq!(vm.current_app_id, "Y");
}

#[test]
fn toast_stays_visible_until_superseding_dismissal() {
    let mut c = Controller::new(config(false), &reading());
    c.activate("X");
    c.advance_to(200);
    c.activate("Y");
    // At the first call's would-be deadline nothing is due but the clock.
    run_until(&mut c, DEFAULT_TOAST_DELAY_MS);
    assert!(c.vm.as_ref().unwrap().toast_visible);
    assert!(c.toast_timer.pending.is_some());
}

#[test]
fn reactivation_while_app_open_restarts_the_toast_cycle() {
    let mut c = Controller::new(config(false), &reading());
    c.activate("apps");
    let first = run_until(&mut c, 2_000);
    assert_eq!(first, vec![DEFAULT_TOAST_DELAY_MS]);
    assert!(!c.vm.as_ref().unwrap().toast_visible);
    c.activate("Настройки");
    assert!(c.vm.as_ref().unwrap().toast_visible);
    assert_eq!(c.vm.as_ref().unwrap().current_app_id, "settings");
    let second = run_until(&mut c, 4_000);
    assert_eq!(second, vec![2_000 + DEFAULT_TOAST_DELAY_MS]);
}

#[test]
fn torn_down_surface_makes_callbacks_no_ops() {
    let mut c = Controller::new(config(false), &reading());
    c.tear_down();
    assert!(c.vm.is_none());
    c.activate("Терминал");
    assert!(c.vm.is_none());
    assert!(c.toast_timer.pending.is_none());
    c.advance_to(CLOCK_PERIOD_MS);
    c.fire_clock(&reading());
    assert!(c.vm.is_none());
    assert_eq!(c.clock_next_ms, 2 * CLOCK_PERIOD_MS);
}

#[test]
fn normalize_app_id_table() {
    assert_eq!(normalize_app_id("settings"), "settings");
    assert_eq!(normalize_app_id("Настройки"), "settings");
    assert_eq!(normalize_app_id("terminal"), "terminal");
    assert_eq!(normalize_app_id("Терминал"), "terminal");
    assert_eq!(normalize_app_id("apps"), "apps");
    assert_eq!(normalize_app_id("Приложения"), "apps");
    assert_eq!(normalize_app_id("calculator"), "calculator");
    assert_eq!(normalize_app_id(""), "");
}

#[test]
fn startup_reads_the_real_clock() {
    let mut c = startup(config(false));
    let text = c.vm.as_ref().unwrap().time_text.clone();
    assert_eq!(text.chars().count(), 5);
    let chars: Vec<char> = text.chars().collect();
    assert_eq!(chars[2], ':');
    assert!(chars[0].is_ascii_digit() && chars[1].is_ascii_digit());
    assert!(chars[3].is_ascii_digit() && chars[4].is_ascii_digit());
    assert!(!c.vm.as_ref().unwrap().date_text.is_empty());
    // A later tick against the real clock keeps the shape.
    c.advance_to(CLOCK_PERIOD_MS);
    c.fire_clock_now();
    let text = &c.vm.as_ref().unwrap().time_text;
    assert_eq!(text.chars().count(), 5);
    assert_eq!(text.chars().nth(2), Some(':'));
}
