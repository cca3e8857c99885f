use capture::{CaptureError, Config, Engine, Format, Frame, GrabOutcome};
use std::sync::{Arc, Mutex};

type Handler = Box<dyn Fn(Frame, u32) + Send + Sync>;

type Log = Arc<Mutex<Vec<(char, u8, u32)>>>;

fn quiet() -> Handler {
    Box::new(|_frame: Frame, _fps: u32| {})
}

fn recording(name: char, log: &Log) -> Handler {
    let log = Arc::clone(log);
    Box::new(move |frame: Frame, fps: u32| {
        log.lock().unwrap().push((name, frame.buffer[0], fps));
    })
}

fn pixel(first: u8) -> Frame {
    Frame::new(1, 1, vec![first, 0, 0, 255], Format::RGBA)
}

#[test]
fn a_new_engine_is_idle() {
    let engine = Engine::new(Config::new(Format::BGRA), quiet());
    assert!(!engine.is_running());
    assert_eq!(engine.fps(), 0);
    assert_eq!(engine.config().format, Format::BGRA);
    assert_eq!(engine.last_error(), None);
}

#[test]
fn start_claims_the_engine_and_says_what_to_capture() {
    let mut engine = Engine::new(Config::new(Format::BGRA), quiet());
    let request = engine.start().unwrap();
    assert_eq!(request.format, Format::BGRA);
    assert!(!request.show_cursor);
    assert!(!request.capture_audio);
    assert!(engine.is_running());
}

#[test]
fn start_while_running_is_refused() {
    let mut engine = Engine::new(Config::new(Format::RGBA), quiet());
    engine.start().unwrap();
    assert_eq!(engine.start(), Err(CaptureError::AlreadyRunning));
    assert!(engine.is_running());
}

#[test]
fn running_only_between_start_and_stop() {
    let mut engine = Engine::new(Config::new(Format::RGBA), quiet());
    assert!(!engine.is_running());
    for _ in 0..5 {
        assert!(engine.start().is_ok());
        assert!(engine.is_running());
        engine.stop();
        assert!(!engine.is_running());
    }
}

#[test]
fn stop_is_idempotent() {
    let mut engine = Engine::new(Config::new(Format::RGBA), quiet());
    engine.stop();
    assert!(!engine.is_running());
    engine.start().unwrap();
    engine.stop();
    engine.stop();
    assert!(!engine.is_running());
    assert!(engine.start().is_ok());
}

#[test]
fn a_failed_session_leaves_the_engine_idle_with_the_error() {
    let mut engine = Engine::new(Config::new(Format::RGBA), quiet());
    engine.start().unwrap();
    engine.fail(CaptureError::BackendError);
    assert!(!engine.is_running());
    assert_eq!(engine.last_error(), Some(CaptureError::BackendError));
    assert!(engine.start().is_ok());
    assert!(engine.is_running());
    assert_eq!(engine.last_error(), None);
}

#[test]
fn stop_keeps_the_last_error() {
    let mut engine = Engine::new(Config::new(Format::RGBA), quiet());
    engine.fail(CaptureError::BackendError);
    engine.stop();
    assert_eq!(engine.last_error(), Some(CaptureError::BackendError));
}

#[test]
fn deliver_publishes_the_rate_before_the_handler_runs() {
    let log: Log = Arc::new(Mutex::new(Vec::new()));
    let mut engine = Engine::new(Config::new(Format::RGBA), recording('a', &log));
    engine.deliver(pixel(1), None);
    engine.deliver(pixel(2), Some(60));
    engine.deliver(pixel(3), None);
    assert_eq!(engine.fps(), 60);
    assert_eq!(*log.lock().unwrap(), vec![('a', 1, 0), ('a', 2, 60), ('a', 3, 60)]);
}

#[test]
fn swap_handler_hands_back_the_previous_handler() {
    let log: Log = Arc::new(Mutex::new(Vec::new()));
    let mut engine = Engine::new(Config::new(Format::RGBA), recording('a', &log));
    let previous = engine.swap_handler(recording('b', &log));
    previous(pixel(9), 5);
    assert_eq!(*log.lock().unwrap(), vec![('a', 9, 5)]);
}

#[test]
fn handler_swapped_mid_stream() {
    let log: Log = Arc::new(Mutex::new(Vec::new()));
    let mut engine = Engine::new(Config::new(Format::RGBA), recording('a', &log));
    engine.start().unwrap();
    for first in 0..3u8 {
        engine.deliver(pixel(first), None);
    }
    let _ = engine.swap_handler(recording('b', &log));
    assert!(engine.is_running());
    for first in 3..6u8 {
        engine.deliver(pixel(first), None);
    }
    assert_eq!(
        *log.lock().unwrap(),
        vec![('a', 0, 0), ('a', 1, 0), ('a', 2, 0), ('b', 3, 0), ('b', 4, 0), ('b', 5, 0)]
    );
}

#[test]
fn grab_installs_the_interceptor_and_claims_the_engine() {
    let log: Log = Arc::new(Mutex::new(Vec::new()));
    let mut engine = Engine::new(Config::new(Format::BGRA), recording('a', &log));
    let (_guard, request) = match engine.grab(recording('i', &log)) {
        Ok(begun) => begun,
        Err(error) => panic!("grab was refused: {:?}", error),
    };
    assert_eq!(request.format, Format::BGRA);
    assert!(engine.is_running());
    engine.deliver(pixel(4), None);
    assert_eq!(*log.lock().unwrap(), vec![('i', 4, 0)]);
}

#[test]
fn grab_returns_the_frame_and_restores_the_handler() {
    let log: Log = Arc::new(Mutex::new(Vec::new()));
    let mut engine = Engine::new(Config::new(Format::RGBA), recording('a', &log));
    let (guard, _request) = match engine.grab(recording('i', &log)) {
        Ok(begun) => begun,
        Err(error) => panic!("grab was refused: {:?}", error),
    };
    let frame = engine.finish_grab(guard, GrabOutcome::Arrived(pixel(42))).unwrap();
    assert_eq!(frame.buffer, vec![42u8, 0, 0, 255]);
    assert!(!engine.is_running());
    engine.deliver(pixel(1), None);
    assert_eq!(*log.lock().unwrap(), vec![('a', 1, 0)]);
}

#[test]
fn grab_that_times_out_restores_the_handler_and_allows_a_start() {
    let log: Log = Arc::new(Mutex::new(Vec::new()));
    let mut engine = Engine::new(Config::new(Format::RGBA), recording('a', &log));
    let (guard, _request) = match engine.grab(recording('i', &log)) {
        Ok(begun) => begun,
        Err(error) => panic!("grab was refused: {:?}", error),
    };
    let result = engine.finish_grab(guard, GrabOutcome::TimedOut);
    assert_eq!(result.err(), Some(CaptureError::Timeout));
    assert!(!engine.is_running());
    assert!(engine.start().is_ok());
    engine.deliver(pixel(7), None);
    assert_eq!(*log.lock().unwrap(), vec![('a', 7, 0)]);
}

#[test]
fn grab_whose_interceptor_is_lost_restores_the_handler() {
    let log: Log = Arc::new(Mutex::new(Vec::new()));
    let mut engine = Engine::new(Config::new(Format::RGBA), recording('a', &log));
    let (guard, _request) = match engine.grab(recording('i', &log)) {
        Ok(begun) => begun,
        Err(error) => panic!("grab was refused: {:?}", error),
    };
    let result = engine.finish_grab(guard, GrabOutcome::Disconnected);
    assert_eq!(result.err(), Some(CaptureError::BackendError));
    assert!(!engine.is_running());
    engine.deliver(pixel(8), None);
    assert_eq!(*log.lock().unwrap(), vec![('a', 8, 0)]);
}

#[test]
fn grab_after_a_failed_session_still_restores_the_handler() {
    let log: Log = Arc::new(Mutex::new(Vec::new()));
    let mut engine = Engine::new(Config::new(Format::RGBA), recording('a', &log));
    let (guard, _request) = match engine.grab(recording('i', &log)) {
        Ok(begun) => begun,
        Err(error) => panic!("grab was refused: {:?}", error),
    };
    engine.fail(CaptureError::BackendError);
    let result = engine.finish_grab(guard, GrabOutcome::TimedOut);
    assert_eq!(result.err(), Some(CaptureError::Timeout));
    assert!(!engine.is_running());
    assert_eq!(engine.last_error(), Some(CaptureError::BackendError));
    engine.deliver(pixel(2), None);
    assert_eq!(*log.lock().unwrap(), vec![('a', 2, 0)]);
}

#[test]
fn grab_while_running_is_refused_and_disturbs_nothing() {
    let log: Log = Arc::new(Mutex::new(Vec::new()));
    let mut engine = Engine::new(Config::new(Format::RGBA), recording('a', &log));
    engine.start().unwrap();
    engine.deliver(pixel(1), Some(24));
    match engine.grab(recording('i', &log)) {
        Ok(_) => panic!("grab began while a session was active"),
        Err(error) => assert_eq!(error, CaptureError::AlreadyRunning),
    }
    assert!(engine.is_running());
    assert_eq!(engine.fps(), 24);
    engine.deliver(pixel(2), None);
    assert_eq!(*log.lock().unwrap(), vec![('a', 1, 24), ('a', 2, 24)]);
}
