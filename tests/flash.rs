use ping_manager::flash::{
    FlashAction, FlashEvent, FlashResult, Ping360FlashSession, Stm32FlashSession, Stm32Phase,
};
use ping_manager::progress::{Milestone, Ping360Scan};

#[test]
fn exit_classification() {
    assert_eq!(FlashResult::from_exit(true, Some(0)), FlashResult::Success);
    assert_eq!(FlashResult::from_exit(false, Some(1)), FlashResult::PortBusy);
    assert_eq!(FlashResult::from_exit(false, Some(2)), FlashResult::PortBusy);
    assert_eq!(FlashResult::from_exit(false, Some(3)), FlashResult::OtherError);
    assert_eq!(FlashResult::from_exit(false, None), FlashResult::OtherError);
}

#[test]
fn stm32flash_retries_then_succeeds() {
    // The flasher exits 1 on attempts 1 and 2 and 0 on attempt 3.
    let mut s = Stm32FlashSession::new(None, None);
    let mut log: Vec<FlashEvent> = Vec::new();
    let mut waits: Vec<u64> = Vec::new();
    let mut writes = 0;
    let mut gos = 0;
    let first = s.begin();
    log.extend(first.events);
    let mut action = first.action;
    loop {
        let step = match action {
            FlashAction::RunWrite => {
                writes += 1;
                let code = if writes < 3 { 1 } else { 0 };
                s.on_exit(FlashResult::from_exit(code == 0, Some(code)))
            }
            FlashAction::RunGo => {
                gos += 1;
                s.on_exit(FlashResult::from_exit(true, Some(0)))
            }
            FlashAction::Wait(ms) => {
                waits.push(ms);
                s.after_wait()
            }
            FlashAction::Done(ok) => {
                assert!(ok);
                break;
            }
            FlashAction::RunBootloader => panic!("wrong flasher"),
        };
        log.extend(step.events);
        action = step.action;
    }
    assert_eq!(writes, 3);
    assert_eq!(gos, 1);
    assert_eq!(s.attempt, 3);
    assert_eq!(waits, vec![5000, 5000]);
    assert_eq!(log.last(), Some(&FlashEvent::Progress(10000)));
    assert_eq!(log.iter().filter(|e| **e == FlashEvent::Progress(0)).count(), 3);
    assert!(log.contains(&FlashEvent::RetryScheduled { attempt: 2, max_attempts: 3, delay_ms: 5000 }));
}

#[test]
fn stm32flash_go_waits_for_write() {
    let mut s = Stm32FlashSession::new(Some(2), Some(10000));
    assert_eq!(s.begin().action, FlashAction::RunWrite);
    let step = s.on_exit(FlashResult::OtherError);
    assert_eq!(step.action, FlashAction::Wait(10000));
    assert_eq!(s.phase, Stm32Phase::Waiting);
    assert_eq!(s.after_wait().action, FlashAction::RunWrite);
    assert_eq!(s.on_exit(FlashResult::Success).action, FlashAction::RunGo);
    // A failing go phase ends the last attempt.
    let step = s.on_exit(FlashResult::PortBusy);
    assert_eq!(step.action, FlashAction::Done(false));
    assert_eq!(step.events, vec![FlashEvent::Failed { attempts: 2 }]);
}

#[test]
fn stm32flash_all_attempts_fail() {
    let mut s = Stm32FlashSession::new(None, None);
    s.begin();
    assert_eq!(s.on_exit(FlashResult::PortBusy).action, FlashAction::Wait(5000));
    s.after_wait();
    assert_eq!(s.on_exit(FlashResult::PortBusy).action, FlashAction::Wait(5000));
    s.after_wait();
    let last = s.on_exit(FlashResult::OtherError);
    assert_eq!(last.action, FlashAction::Done(false));
    assert_eq!(last.events, vec![FlashEvent::Failed { attempts: 3 }]);
    assert_eq!(s.phase, Stm32Phase::Finished);
}

#[test]
fn ping360_benign_exit_counts_as_success() {
    let mut session = Ping360FlashSession::new(None, None);
    let mut events = session.begin().events;
    let mut scan = Ping360Scan::new();
    let lines = [
        "erasing flash...ok",
        "writing application...",
        "verifying application...",
        "writing configuration...ok",
        "starting application...ok",
    ];
    for line in lines {
        if let Some(m) = scan.scan_line(line) {
            events.push(FlashEvent::Progress(m.percent()));
        }
    }
    // The tool then exits with status 1.
    let ok = scan.attempt_succeeded(false);
    assert!(ok);
    let step = session.on_attempt_end(ok);
    events.extend(step.events);
    assert_eq!(step.action, FlashAction::Done(true));
    assert_eq!(session.attempt, 1);
    let percents: Vec<u32> = events
        .iter()
        .map(|e| match e {
            FlashEvent::Progress(p) => *p,
            _ => panic!("unexpected event"),
        })
        .collect();
    assert_eq!(percents, vec![0, 2500, 7500, 9000, 10000, 10000]);
    assert!(percents.windows(2).all(|w| w[0] <= w[1]));
}

#[test]
fn ping360_failure_retries_with_ten_second_delay() {
    let mut session = Ping360FlashSession::new(None, None);
    let scan = Ping360Scan::new();
    assert!(!scan.attempt_succeeded(false));
    let step = session.on_attempt_end(false);
    assert_eq!(step.action, FlashAction::Wait(10000));
    assert_eq!(step.events, vec![FlashEvent::RetryScheduled { attempt: 2, max_attempts: 3, delay_ms: 10000 }]);
    let again = session.after_wait();
    assert!(again.events.is_empty());
    assert_eq!(again.action, FlashAction::RunBootloader);
    session.on_attempt_end(false);
    session.after_wait();
    let last = session.on_attempt_end(false);
    assert_eq!(last.action, FlashAction::Done(false));
    assert_eq!(last.events, vec![FlashEvent::Failed { attempts: 3 }]);
}

#[test]
fn ping360_scan_needs_both_markers() {
    let mut scan = Ping360Scan::new();
    assert_eq!(scan.scan_line("writing configuration...ok"), Some(Milestone::ConfigurationWritten));
    assert!(!scan.attempt_succeeded(false));
    assert!(scan.attempt_succeeded(true));
    assert_eq!(scan.scan_line(">> starting application...ok <<"), Some(Milestone::ApplicationStarted));
    assert!(scan.attempt_succeeded(false));
}

#[test]
fn ping360_milestones_read_alike_from_either_stream() {
    // Lines of standard error go through the same scan as standard output.
    let mut scan = Ping360Scan::new();
    assert_eq!(scan.scan_line("writing application..."), Some(Milestone::WritingApplication));
    assert_eq!(scan.scan_line("verifying application..."), Some(Milestone::VerifyingApplication));
    assert_eq!(Milestone::WritingApplication.percent(), 2500);
    assert_eq!(Milestone::VerifyingApplication.percent(), 7500);
    assert_eq!(Milestone::ConfigurationWritten.percent(), 9000);
    assert_eq!(Milestone::ApplicationStarted.percent(), 10000);
}

#[test]
fn milestone_priority_within_a_line() {
    let mut scan = Ping360Scan::new();
    assert_eq!(
        scan.scan_line("writing application... writing configuration...ok"),
        Some(Milestone::WritingApplication)
    );
    assert!(!scan.saw_config_write);
    assert_eq!(scan.scan_line("nothing here"), None);
    assert_eq!(scan.scan_line(""), None);
}
