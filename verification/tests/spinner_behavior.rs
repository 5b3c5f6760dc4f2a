use spinner::engine::{glyph, Spinner};
use spinner::frames::{GLYPH_BACKSLASH, GLYPH_BAR, GLYPH_DASH, GLYPH_SLASH, RETREAT};

/// Drives a fresh render task through `frames` frames and one stop turn,
/// collecting every byte the engine hands out, the way the render thread of
/// an embedding program would.
fn run_frames(interval_ms: u64, frames: u64) -> Vec<u8> {
    let spinner = Spinner::new(interval_ms);
    let (handle, mut task) = spinner.start();
    let mut out: Vec<u8> = Vec::new();
    let mut i: u64 = 0;
    while i < frames {
        out.extend(task.step(false));
        i += 1;
    }
    out.extend(task.step(true));
    handle.stop();
    out
}

#[test]
fn test_spinner() {
    let out = run_frames(1, 50);
    assert_eq!(*out.first().unwrap(), '|'.to_ascii_lowercase() as u8);
    assert_eq!(*out.get(1).unwrap(), '\u{8}'.to_ascii_lowercase() as u8);
    assert_eq!(*out.get(2).unwrap(), '/'.to_ascii_lowercase() as u8);
    assert_eq!(*out.get(3).unwrap(), '\u{8}'.to_ascii_lowercase() as u8);
    assert_eq!(*out.get(4).unwrap(), '-'.to_ascii_lowercase() as u8);
    assert_eq!(*out.get(5).unwrap(), '\u{8}'.to_ascii_lowercase() as u8);
    assert_eq!(*out.get(6).unwrap(), '\\'.to_ascii_lowercase() as u8);
    assert_eq!(*out.last().unwrap(), '\u{8}'.to_ascii_lowercase() as u8);
}

#[test]
fn fast_run_has_full_pattern_and_length() {
    let out = run_frames(1, 50);
    assert_eq!(out.len(), 2 * 50 + 1);
    let cycle = [GLYPH_BAR, GLYPH_SLASH, GLYPH_DASH, GLYPH_BACKSLASH];
    let mut k: usize = 0;
    while k < 50 {
        assert_eq!(out[2 * k], cycle[k % 4]);
        assert_eq!(out[2 * k + 1], RETREAT);
        k += 1;
    }
    assert_eq!(*out.last().unwrap(), RETREAT);
}

#[test]
fn huge_interval_stop_before_first_frame() {
    let spinner = Spinner::new(10_000);
    let (handle, mut task) = spinner.start();
    let out = task.step(true);
    handle.stop();
    assert_eq!(out, vec![RETREAT]);
    assert!(task.done());
    assert_eq!(task.frames_rendered(), 0);
}

#[test]
fn huge_interval_stop_after_one_frame() {
    let out = run_frames(10_000, 1);
    assert_eq!(out, vec![GLYPH_BAR, RETREAT, RETREAT]);
}

#[test]
fn immediate_stop_opens_with_bar_and_closes_with_retreat() {
    let out = run_frames(0, 1);
    assert_eq!(out[0], GLYPH_BAR);
    assert_eq!(out[1], RETREAT);
    assert_eq!(*out.last().unwrap(), RETREAT);
}

#[test]
fn glyph_cycles_in_order() {
    assert_eq!(glyph(0), GLYPH_BAR);
    assert_eq!(glyph(1), GLYPH_SLASH);
    assert_eq!(glyph(2), GLYPH_DASH);
    assert_eq!(glyph(3), GLYPH_BACKSLASH);
    assert_eq!(glyph(4), GLYPH_BAR);
    assert_eq!(glyph(7), GLYPH_BACKSLASH);
    assert_eq!(glyph(401), GLYPH_SLASH);
}

#[test]
fn counters_and_interval_carry_over() {
    let spinner = Spinner::new(250);
    let (handle, mut task) = spinner.start();
    assert_eq!(task.interval_in_ms(), 250);
    assert_eq!(task.frames_rendered(), 0);
    assert!(!task.done());
    let _ = task.step(false);
    let _ = task.step(false);
    assert_eq!(task.frames_rendered(), 2);
    assert!(!task.done());
    let _ = task.step(true);
    assert_eq!(task.frames_rendered(), 2);
    assert!(task.done());
    handle.stop();
}

#[test]
fn zero_interval_is_legal() {
    let spinner = Spinner::new(0);
    let (handle, task) = spinner.start();
    assert_eq!(task.interval_in_ms(), 0);
    assert!(!task.done());
    handle.stop();
}

#[test]
fn stop_once_consumes_the_handle() {
    let spinner = Spinner::new(5);
    let (handle, _task) = spinner.start();
    handle.stop();
    // A second call cannot be written: `stop` takes the handle by value.
}
