use shell_launcher::command::{launch_command, strategy_for, Platform, Strategy};
use shell_launcher::launcher::{Action, Event, Launcher, Stage, STARTUP_DELAY_MS};

fn strings(v: &[&str]) -> Vec<String> {
    v.iter().map(|s| s.to_string()).collect()
}

#[test]
fn windows_runs_through_the_interpreter() {
    assert_eq!(strategy_for(Platform::Windows), Strategy::InterpreterWrapped);
    let inv = launch_command(Platform::Windows);
    assert_eq!(inv.program, "cmd");
    assert_eq!(inv.args, strings(&["/C", "npm", "run", "start"]));
}

#[test]
fn other_platforms_run_npm_directly() {
    assert_eq!(strategy_for(Platform::Other), Strategy::Direct);
    let inv = launch_command(Platform::Other);
    assert_eq!(inv.program, "npm");
    assert_eq!(inv.args, strings(&["run", "start"]));
}

#[test]
fn each_platform_has_exactly_one_strategy() {
    for p in [Platform::Windows, Platform::Other] {
        let inv = launch_command(p);
        let wrapped = inv.program == "cmd" && inv.args.len() >= 2 && inv.args[0] == "/C";
        let direct = inv.program == "npm";
        assert!(wrapped != direct);
    }
}

#[test]
fn server_ready_within_delay_shell_starts() {
    let mut l = Launcher::new();
    assert_eq!(l.stage(), Stage::NotStarted);
    assert_eq!(l.step(Event::Begin), Action::Spawn);
    assert_eq!(l.stage(), Stage::Launching);
    assert_eq!(l.step(Event::Spawned), Action::Sleep(3000));
    assert_eq!(l.stage(), Stage::Waiting);
    assert_eq!(l.child_handles(), 1);
    assert_eq!(l.step(Event::Slept(3000)), Action::StartShell);
    assert_eq!(l.stage(), Stage::ShellRunning);
    assert_eq!(l.waited_ms(), STARTUP_DELAY_MS);
}

#[test]
fn slow_server_shell_starts_regardless() {
    // The launcher never observes whether the server is listening: after the
    // delay the shell starts whatever the server's state.
    let mut l = Launcher::new();
    l.step(Event::Begin);
    l.step(Event::Spawned);
    assert_eq!(l.step(Event::Slept(STARTUP_DELAY_MS)), Action::StartShell);
    assert_eq!(l.stage(), Stage::ShellRunning);
}

#[test]
fn missing_command_aborts_before_shell() {
    let mut l = Launcher::new();
    assert_eq!(l.step(Event::Begin), Action::Spawn);
    assert_eq!(l.step(Event::SpawnFailed), Action::Abort);
    assert_eq!(l.stage(), Stage::Aborted);
    assert_eq!(l.child_handles(), 0);
    assert_eq!(l.step(Event::Slept(10_000)), Action::Idle);
    assert_eq!(l.step(Event::Spawned), Action::Idle);
    assert_eq!(l.stage(), Stage::Aborted);
}

#[test]
fn short_sleep_asks_for_the_rest_of_the_delay() {
    let mut l = Launcher::new();
    l.step(Event::Begin);
    l.step(Event::Spawned);
    assert_eq!(l.step(Event::Slept(1000)), Action::Sleep(2000));
    assert_eq!(l.waited_ms(), 1000);
    assert_eq!(l.stage(), Stage::Waiting);
    assert_eq!(l.step(Event::Slept(1999)), Action::Sleep(1));
    assert_eq!(l.step(Event::Slept(1)), Action::StartShell);
}

#[test]
fn zero_sleep_does_not_end_the_wait() {
    let mut l = Launcher::new();
    l.step(Event::Begin);
    l.step(Event::Spawned);
    assert_eq!(l.step(Event::Slept(0)), Action::Sleep(3000));
    assert_eq!(l.stage(), Stage::Waiting);
}

#[test]
fn oversleeping_by_the_largest_amount_starts_the_shell() {
    let mut l = Launcher::new();
    l.step(Event::Begin);
    l.step(Event::Spawned);
    l.step(Event::Slept(2999));
    assert_eq!(l.step(Event::Slept(u64::MAX)), Action::StartShell);
    assert_eq!(l.waited_ms(), STARTUP_DELAY_MS);
}

#[test]
fn only_one_spawn_per_run() {
    let mut l = Launcher::new();
    assert_eq!(l.step(Event::Begin), Action::Spawn);
    assert_eq!(l.step(Event::Begin), Action::Idle);
    l.step(Event::Spawned);
    assert_eq!(l.step(Event::Spawned), Action::Idle);
    assert_eq!(l.step(Event::Begin), Action::Idle);
    l.step(Event::Slept(3000));
    assert_eq!(l.step(Event::Begin), Action::Idle);
    assert_eq!(l.step(Event::Spawned), Action::Idle);
    assert_eq!(l.child_handles(), 1);
}

#[test]
fn events_out_of_order_are_ignored() {
    let mut l = Launcher::new();
    assert_eq!(l.step(Event::Slept(5000)), Action::Idle);
    assert_eq!(l.step(Event::Spawned), Action::Idle);
    assert_eq!(l.step(Event::SpawnFailed), Action::Idle);
    assert_eq!(l.stage(), Stage::NotStarted);
    l.step(Event::Begin);
    assert_eq!(l.step(Event::Slept(5000)), Action::Idle);
    assert_eq!(l.stage(), Stage::Launching);
    l.step(Event::Spawned);
    assert_eq!(l.step(Event::SpawnFailed), Action::Idle);
    assert_eq!(l.stage(), Stage::Waiting);
}
