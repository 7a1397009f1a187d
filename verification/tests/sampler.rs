use screen_sampler::geometry::DisplaySize;
use screen_sampler::geometry::ScreenPoint;
use screen_sampler::geometry::WindowBounds;
use screen_sampler::sampler::Action;
use screen_sampler::sampler::PlatformEvent;
use screen_sampler::sampler::SampleError;
use screen_sampler::sampler::SampleOutcome;
use screen_sampler::sampler::Sampler;

fn point(x: i32, y: i32) -> ScreenPoint {
    ScreenPoint { x, y }
}

fn rect(left: i32, top: i32, right: i32, bottom: i32) -> WindowBounds {
    WindowBounds { left, top, right, bottom }
}

fn display(width: i32, height: i32) -> DisplaySize {
    DisplaySize { width, height }
}

/// A full-display BGR buffer, one solid color everywhere.
fn solid_buffer(d: DisplaySize, blue: u8, green: u8, red: u8) -> Vec<u8> {
    let pixels = (d.width as usize) * (d.height as usize);
    let mut bits = Vec::with_capacity(pixels * 3);
    for _ in 0..pixels {
        bits.push(blue);
        bits.push(green);
        bits.push(red);
    }
    bits
}

/// Drives one sample run through every platform reply in order and returns
/// the finished sampler.  Replies that a run ended early no longer waits for
/// are ignored by the machine.
fn drive(
    cursor: Option<ScreenPoint>,
    window: Option<WindowBounds>,
    d: DisplaySize,
    blit_ok: bool,
    bits: Option<Vec<u8>>,
) -> Sampler {
    let s = Sampler::new();
    let s = s.step(PlatformEvent::CursorReply(cursor));
    let s = s.step(PlatformEvent::RectReply(window));
    let s = s.step(PlatformEvent::DisplayReply(d));
    let s = s.step(PlatformEvent::Acquired);
    let s = s.step(PlatformEvent::BlitReply(blit_ok));
    let s = s.step(PlatformEvent::BitsReply(bits));
    s.step(PlatformEvent::Released)
}

fn outcome_of(s: Sampler) -> SampleOutcome {
    assert!(s.is_done());
    s.into_outcome().expect("finished run must carry an outcome")
}

#[test]
fn solid_red_pixel_outside_window() {
    let d = display(1920, 1080);
    let mut bits = solid_buffer(d, 0x00, 0x00, 0x00);
    let idx = (50 * 1920 + 50) * 3;
    bits[idx] = 0x00;
    bits[idx + 1] = 0x00;
    bits[idx + 2] = 0xFF;
    let s = drive(Some(point(50, 50)), Some(rect(100, 100, 400, 400)), d, true, Some(bits));
    assert_eq!(s.handles_outstanding(), 0);
    assert_eq!(outcome_of(s), SampleOutcome::Color(String::from("#FF0000")));
}

#[test]
fn pointer_inside_window_is_skipped() {
    let s = Sampler::new();
    let s = s.step(PlatformEvent::CursorReply(Some(point(200, 200))));
    let s = s.step(PlatformEvent::RectReply(Some(rect(100, 100, 400, 400))));
    assert!(s.is_done());
    assert_eq!(s.next_action(), Action::Finished);
    assert_eq!(s.handles_acquired(), 0);
    assert_eq!(outcome_of(s), SampleOutcome::InsideOwnWindow);
}

#[test]
fn cursor_query_failure_acquires_nothing() {
    let s = Sampler::new();
    let s = s.step(PlatformEvent::CursorReply(None));
    assert!(s.is_done());
    assert_eq!(s.handles_acquired(), 0);
    assert_eq!(outcome_of(s), SampleOutcome::Failed(SampleError::CursorQueryError));
}

#[test]
fn window_query_failure_acquires_nothing() {
    let s = Sampler::new();
    let s = s.step(PlatformEvent::CursorReply(Some(point(10, 10))));
    let s = s.step(PlatformEvent::RectReply(None));
    assert!(s.is_done());
    assert_eq!(s.handles_acquired(), 0);
    assert_eq!(outcome_of(s), SampleOutcome::Failed(SampleError::WindowQueryError));
}

#[test]
fn blit_failure_still_releases_handles() {
    let d = display(64, 64);
    let s = drive(Some(point(500, 500)), Some(rect(0, 0, 100, 100)), d, false, None);
    assert_eq!(s.handles_acquired(), 3);
    assert_eq!(s.handles_released(), 3);
    assert_eq!(s.handles_outstanding(), 0);
    assert_eq!(outcome_of(s), SampleOutcome::Failed(SampleError::CaptureBlitError));
}

#[test]
fn extract_failure_still_releases_handles() {
    let d = display(64, 64);
    let s = drive(Some(point(500, 500)), Some(rect(0, 0, 100, 100)), d, true, None);
    assert_eq!(s.handles_outstanding(), 0);
    assert_eq!(outcome_of(s), SampleOutcome::Failed(SampleError::PixelExtractError));
}

#[test]
fn negative_coordinates_are_out_of_bounds() {
    let d = display(64, 64);
    let bits = solid_buffer(d, 1, 2, 3);
    let s = drive(Some(point(-5, 10)), Some(rect(0, 0, 8, 8)), d, true, Some(bits));
    assert_eq!(s.handles_outstanding(), 0);
    assert_eq!(outcome_of(s), SampleOutcome::Failed(SampleError::OutOfBoundsError));
}

#[test]
fn pointer_past_display_is_out_of_bounds() {
    let d = display(64, 64);
    let bits = solid_buffer(d, 1, 2, 3);
    let s = drive(Some(point(64, 0)), Some(rect(70, 70, 80, 80)), d, true, Some(bits));
    assert_eq!(outcome_of(s), SampleOutcome::Failed(SampleError::OutOfBoundsError));
}

#[test]
fn short_buffer_is_out_of_bounds() {
    let d = display(64, 64);
    let s = drive(Some(point(63, 63)), Some(rect(70, 70, 80, 80)), d, true, Some(vec![0u8; 3]));
    assert_eq!(s.handles_outstanding(), 0);
    assert_eq!(outcome_of(s), SampleOutcome::Failed(SampleError::OutOfBoundsError));
}

#[test]
fn edge_of_window_counts_as_inside() {
    let s = Sampler::new();
    let s = s.step(PlatformEvent::CursorReply(Some(point(400, 400))));
    let s = s.step(PlatformEvent::RectReply(Some(rect(100, 100, 400, 400))));
    assert!(s.is_done());
    assert_eq!(s.handles_acquired(), 0);
    assert_eq!(outcome_of(s), SampleOutcome::InsideOwnWindow);
}

#[test]
fn one_past_window_edge_proceeds_to_capture() {
    let s = Sampler::new();
    let s = s.step(PlatformEvent::CursorReply(Some(point(401, 400))));
    let s = s.step(PlatformEvent::RectReply(Some(rect(100, 100, 400, 400))));
    assert!(!s.is_done());
    assert_eq!(s.next_action(), Action::QueryDisplay);
}

#[test]
fn successful_sample_is_well_formed_hex() {
    let d = display(32, 16);
    let mut bits = solid_buffer(d, 0x9A, 0x5B, 0x1C);
    let idx = (7 * 32 + 21) * 3;
    bits[idx] = 0xEF;
    bits[idx + 1] = 0xCD;
    bits[idx + 2] = 0xAB;
    let s = drive(Some(point(21, 7)), Some(rect(0, 0, 5, 5)), d, true, Some(bits));
    match outcome_of(s) {
        SampleOutcome::Color(c) => {
            assert_eq!(c.len(), 7);
            let chars: Vec<char> = c.chars().collect();
            assert_eq!(chars[0], '#');
            for ch in &chars[1..] {
                assert!(ch.is_ascii_hexdigit() && !ch.is_ascii_lowercase());
            }
            assert_eq!(c, "#ABCDEF");
        },
        other => panic!("expected a color, got {:?}", other),
    }
}

#[test]
fn repeated_sample_over_unchanged_screen_is_identical() {
    let d = display(128, 128);
    let bits = solid_buffer(d, 0x21, 0x43, 0x65);
    let cursor = Some(point(77, 33));
    let window = Some(rect(0, 0, 10, 10));
    let first = outcome_of(drive(cursor, window, d, true, Some(bits.clone())));
    let second = outcome_of(drive(cursor, window, d, true, Some(bits)));
    assert_eq!(first, SampleOutcome::Color(String::from("#654321")));
    assert_eq!(first, second);
}

#[test]
fn mixed_runs_leak_no_handles() {
    let d = display(16, 16);
    let runs: Vec<Sampler> = vec![
        drive(Some(point(200, 200)), Some(rect(0, 0, 300, 300)), d, true, None),
        drive(None, None, d, true, None),
        drive(Some(point(3, 3)), Some(rect(8, 8, 12, 12)), d, true, Some(solid_buffer(d, 9, 8, 7))),
        drive(Some(point(3, 3)), Some(rect(8, 8, 12, 12)), d, false, None),
        drive(Some(point(3, 3)), Some(rect(8, 8, 12, 12)), d, true, None),
        drive(Some(point(-1, 3)), Some(rect(8, 8, 12, 12)), d, true, Some(solid_buffer(d, 9, 8, 7))),
    ];
    for s in runs {
        assert!(s.is_done());
        assert_eq!(s.handles_outstanding(), 0);
    }
}

#[test]
fn actions_follow_the_capture_order() {
    let d = display(8, 8);
    let s = Sampler::new();
    assert_eq!(s.next_action(), Action::QueryCursor);
    let s = s.step(PlatformEvent::CursorReply(Some(point(6, 6))));
    assert_eq!(s.next_action(), Action::QueryRect);
    let s = s.step(PlatformEvent::RectReply(Some(rect(0, 0, 2, 2))));
    assert_eq!(s.next_action(), Action::QueryDisplay);
    let s = s.step(PlatformEvent::DisplayReply(d));
    assert_eq!(s.next_action(), Action::Acquire { display: d });
    let s = s.step(PlatformEvent::Acquired);
    assert_eq!(s.handles_acquired(), 3);
    assert_eq!(s.next_action(), Action::Blit { display: d });
    let s = s.step(PlatformEvent::BlitReply(true));
    assert_eq!(s.next_action(), Action::ExtractBits { display: d });
    let s = s.step(PlatformEvent::BitsReply(Some(solid_buffer(d, 0, 0, 0))));
    assert_eq!(s.next_action(), Action::Release);
    let s = s.step(PlatformEvent::Released);
    assert_eq!(s.next_action(), Action::Finished);
    assert_eq!(outcome_of(s), SampleOutcome::Color(String::from("#000000")));
}

#[test]
fn unanswered_reply_is_ignored() {
    let s = Sampler::new();
    let s = s.step(PlatformEvent::Released);
    assert_eq!(s.next_action(), Action::QueryCursor);
    assert_eq!(s.handles_acquired(), 0);
    let s = s.step(PlatformEvent::CursorReply(Some(point(1, 2))));
    assert_eq!(s.next_action(), Action::QueryRect);
}
