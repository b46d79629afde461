use jukebox::{poll_step, startup_plan, LibraryDir, PollStep, StartupPlan, BUSY_PAUSE_SECS, EMPTY_PAUSE_SECS};

fn args(list: &[&str]) -> Vec<String> {
    list.iter().map(|s| s.to_string()).collect()
}

#[test]
fn installed_libraries_are_updated() {
    let plan = startup_plan(&args(&["jukebox"]), LibraryDir::HasEntries);
    assert_eq!(plan, StartupPlan { reinstall: false, update: true });
}

#[test]
fn reset_flag_reinstalls() {
    let plan = startup_plan(&args(&["jukebox", "--reset"]), LibraryDir::HasEntries);
    assert_eq!(plan, StartupPlan { reinstall: true, update: false });
}

#[test]
fn similar_flag_does_not_reinstall() {
    let plan = startup_plan(&args(&["jukebox", "--resets", "reset"]), LibraryDir::HasEntries);
    assert_eq!(plan, StartupPlan { reinstall: false, update: true });
}

#[test]
fn empty_directory_reinstalls() {
    let plan = startup_plan(&args(&["jukebox"]), LibraryDir::Empty);
    assert_eq!(plan, StartupPlan { reinstall: true, update: false });
}

#[test]
fn unreadable_directory_reinstalls() {
    let plan = startup_plan(&args(&[]), LibraryDir::Unreadable);
    assert_eq!(plan, StartupPlan { reinstall: true, update: false });
}

#[test]
fn poller_reports_empty_player() {
    assert_eq!(poll_step(true), PollStep { send_empty: true, pause_secs: EMPTY_PAUSE_SECS });
    assert_eq!(poll_step(false), PollStep { send_empty: false, pause_secs: BUSY_PAUSE_SECS });
    assert_eq!(EMPTY_PAUSE_SECS, 10);
    assert_eq!(BUSY_PAUSE_SECS, 5);
}
