use grater::error::IdleError;
use grater::mover::{crash_line, handle_ui_event, mover_next_action, runtime_line};
use grater::mover::{MoverAction, UiAction, UiEvent};
use grater::rng::{random_delay_secs, random_position, MAX_DELAY, MIN_DELAY};

#[test]
fn error_messages() {
    assert_eq!(
        IdleError::CouldNotAcquireMonitor.message(),
        "Could not acquire monitor handle."
    );
    assert_eq!(
        IdleError::CouldNotCreateWindow(String::from("no display")).message(),
        "Error while creating window: no display"
    );
    assert_eq!(
        IdleError::CouldNotMoveCursor(String::from("denied")).message(),
        "Could not move mouse cursor: denied"
    );
}

#[test]
fn runtime_and_crash_lines() {
    assert_eq!(runtime_line(61), "exiting; grater ran for 00:01:01");
    assert_eq!(runtime_line(0), "exiting; grater ran for 00:00:00");
    let err = IdleError::CouldNotMoveCursor(String::from("denied"));
    assert_eq!(
        crash_line(&err),
        "grater crashed: Could not move mouse cursor: denied"
    );
}

#[test]
fn close_request_exits_with_runtime_report() {
    match handle_ui_event(&UiEvent::CloseRequested, 3661) {
        UiAction::Exit { runtime_line } => {
            assert_eq!(runtime_line, "exiting; grater ran for 01:01:01");
        }
        UiAction::Wait => panic!("a close request must end the loop"),
    }
}

#[test]
fn other_events_keep_waiting() {
    match handle_ui_event(&UiEvent::Other, 7) {
        UiAction::Wait => {}
        UiAction::Exit { .. } => panic!("only a close request may end the loop"),
    }
}

#[test]
fn successful_move_sleeps_within_bounds() {
    let mut rng = rand::thread_rng();
    for _ in 0..200 {
        match mover_next_action(&mut rng, Ok(()), 5) {
            MoverAction::Sleep { seconds } => {
                assert!((MIN_DELAY..MAX_DELAY).contains(&seconds));
            }
            MoverAction::Abort { .. } => panic!("a successful move must not abort"),
        }
    }
}

#[test]
fn failed_move_aborts_with_both_lines() {
    let mut rng = rand::thread_rng();
    match mover_next_action(&mut rng, Err(String::from("window gone")), 61) {
        MoverAction::Abort {
            error_line,
            runtime_line,
        } => {
            assert_eq!(
                error_line,
                "grater crashed: Could not move mouse cursor: window gone"
            );
            assert_eq!(runtime_line, "exiting; grater ran for 00:01:01");
        }
        MoverAction::Sleep { .. } => panic!("a failed move must abort"),
    }
}

#[test]
fn positions_stay_within_bounds() {
    let mut rng = rand::thread_rng();
    for _ in 0..1000 {
        let (x, y) = random_position(&mut rng, 1920, 1080);
        assert!(x < 1920);
        assert!(y < 1080);
    }
}

#[test]
fn smallest_bounds_pin_the_position() {
    let mut rng = rand::thread_rng();
    for _ in 0..20 {
        let (x, y) = random_position(&mut rng, 1, 1);
        assert_eq!((x, y), (0, 0));
    }
}

#[test]
fn delays_stay_within_bounds() {
    let mut rng = rand::thread_rng();
    for _ in 0..1000 {
        let d = random_delay_secs(&mut rng);
        assert!((2..30).contains(&d));
    }
}
