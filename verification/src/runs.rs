//! Whole-run properties of the sampler.
//!
//! A run is a fold of [`spec_step`] over the platform's replies, starting
//! from a fresh sampler.  The lemmas here state what the design owes its
//! callers: a skip when the pointer is over the consumer's own window, a
//! classified failure with nothing acquired when the cursor query fails, a
//! well-formed color string when every platform call succeeds, no handle
//! left unreleased at the end of any run, and statelessness across runs.

use vstd::prelude::*;

use crate::color::Rgb;
use crate::color::is_color_hex;
use crate::color::lemma_color_hex_wellformed;
use crate::color::spec_color_hex;
use crate::geometry::DisplaySize;
use crate::geometry::ScreenPoint;
use crate::geometry::WindowBounds;
use crate::geometry::spec_contains;
use crate::geometry::spec_on_display;
use crate::sampler::OutcomeV;
use crate::sampler::PhaseV;
use crate::sampler::PlatformEventV;
use crate::sampler::SampleError;
use crate::sampler::SamplerV;
use crate::sampler::init_v;
use crate::sampler::lemma_step_preserves_wf;
use crate::sampler::spec_extract;
use crate::sampler::spec_step;

verus! {

/// The sampler after a fresh-started run has consumed `events` in order.
pub open spec fn run(s: SamplerV, events: Seq<PlatformEventV>) -> SamplerV
    decreases events.len(),
{
    if events.len() == 0 {
        s
    } else {
        run(spec_step(s, events.first()), events.drop_first())
    }
}

/// Every run keeps the handle accounting well formed.
pub proof fn lemma_run_preserves_wf(s: SamplerV, events: Seq<PlatformEventV>)
    requires
        s.wf(),
    ensures
        run(s, events).wf(),
    decreases events.len(),
{
    if events.len() > 0 {
        lemma_step_preserves_wf(s, events.first());
        lemma_run_preserves_wf(spec_step(s, events.first()), events.drop_first());
    }
}

/// No handle leaks: whatever replies a run sees — success, skip or any mix
/// of failure paths — a finished run has released exactly the handles it
/// acquired, and an unfinished one holds at most the three of the current
/// capture.  Consecutive samples each start fresh, so any number of
/// sequential runs leaves zero handles outstanding.
pub proof fn lemma_no_handle_leak(events: Seq<PlatformEventV>)
    ensures
        run(init_v(), events).wf(),
        run(init_v(), events).phase is Done ==> run(init_v(), events).outstanding() == 0,
{
    lemma_run_preserves_wf(init_v(), events);
}

/// The replies of a run whose pointer query and window query both succeed
/// and whose capture is carried through: every platform call of the capture
/// is answered, and the handles are released at the end.
pub open spec fn capture_events(
    cursor: ScreenPoint,
    rect: WindowBounds,
    display: DisplaySize,
    blit_ok: bool,
    bits: Option<Seq<u8>>,
) -> Seq<PlatformEventV> {
    seq![
        PlatformEventV::CursorReply(Some(cursor)),
        PlatformEventV::RectReply(Some(rect)),
        PlatformEventV::DisplayReply(display),
        PlatformEventV::Acquired,
        PlatformEventV::BlitReply(blit_ok),
        PlatformEventV::BitsReply(bits),
        PlatformEventV::Released,
    ]
}

/// The pixel's first byte sits at `(y * width + x) * 3`; for a pointer on
/// the display all three of its bytes sit inside a full-display buffer.
proof fn lemma_pixel_index_in_bounds(x: int, y: int, w: int, h: int)
    requires
        0 <= x < w,
        0 <= y < h,
    ensures
        (y * w + x) * 3 + 3 <= w * h * 3,
{
    assert((y * w + x) * 3 + 3 <= w * h * 3) by (nonlinear_arith)
        requires
            0 <= x < w,
            0 <= y < h,
    ;
}

/// A pointer over the consumer's own window is skipped: the run is done
/// after the two queries, reports `InsideOwnWindow`, and has acquired no
/// graphics handle — no capture takes place.
pub proof fn lemma_inside_own_window(cursor: ScreenPoint, rect: WindowBounds)
    requires
        spec_contains(rect, cursor),
    ensures
        ({
            let f = run(
                init_v(),
                seq![
                    PlatformEventV::CursorReply(Some(cursor)),
                    PlatformEventV::RectReply(Some(rect)),
                ],
            );
            &&& f.phase == (PhaseV::Done { outcome: OutcomeV::InsideOwnWindow })
            &&& f.acquired == 0
        }),
{
    let events = seq![
        PlatformEventV::CursorReply(Some(cursor)),
        PlatformEventV::RectReply(Some(rect)),
    ];
    let s1 = spec_step(init_v(), events[0]);
    let s2 = spec_step(s1, events[1]);
    assert(run(init_v(), events) == run(s1, events.drop_first()));
    assert(events.drop_first().first() == events[1]);
    assert(run(s1, events.drop_first()) == run(s2, events.drop_first().drop_first()));
    assert(events.drop_first().drop_first().len() == 0);
}

/// A failed cursor query ends the run at once with `CursorQueryError`; no
/// graphics handle was acquired.
pub proof fn lemma_cursor_query_failure()
    ensures
        ({
            let f = run(init_v(), seq![PlatformEventV::CursorReply(None)]);
            &&& f.phase == (PhaseV::Done {
                outcome: OutcomeV::Failed(SampleError::CursorQueryError),
            })
            &&& f.acquired == 0
        }),
{
    let events = seq![PlatformEventV::CursorReply(None)];
    let s1 = spec_step(init_v(), events[0]);
    assert(run(init_v(), events) == run(s1, events.drop_first()));
    assert(events.drop_first().len() == 0);
}

/// A successful sample: for every pointer on the display and outside the
/// window rectangle, a run whose platform calls all succeed on a
/// full-display buffer ends with the well-formed uppercase `#RRGGBB`
/// rendering of the blue-green-red bytes at the pointer's pixel, having
/// released all three handles it acquired.
pub proof fn lemma_successful_sample(
    cursor: ScreenPoint,
    rect: WindowBounds,
    display: DisplaySize,
    bits: Seq<u8>,
)
    requires
        !spec_contains(rect, cursor),
        spec_on_display(display, cursor),
        bits.len() == display.width * display.height * 3,
    ensures
        ({
            let f = run(init_v(), capture_events(cursor, rect, display, true, Some(bits)));
            let idx = (cursor.y * display.width + cursor.x) * 3;
            let rgb = Rgb { red: bits[idx + 2], green: bits[idx + 1], blue: bits[idx] };
            &&& f.phase == (PhaseV::Done { outcome: OutcomeV::Color(spec_color_hex(rgb)) })
            &&& is_color_hex(spec_color_hex(rgb))
            &&& f.acquired == 3
            &&& f.released == 3
        }),
{
    let events = capture_events(cursor, rect, display, true, Some(bits));
    lemma_pixel_index_in_bounds(
        cursor.x as int,
        cursor.y as int,
        display.width as int,
        display.height as int,
    );
    let idx = (cursor.y * display.width + cursor.x) * 3;
    let rgb = Rgb { red: bits[idx + 2], green: bits[idx + 1], blue: bits[idx] };
    assert(spec_extract(bits, cursor, display) == Ok::<Rgb, SampleError>(rgb));
    lemma_color_hex_wellformed(rgb);
    let s0 = init_v();
    let s1 = spec_step(s0, events[0]);
    let s2 = spec_step(s1, events[1]);
    let s3 = spec_step(s2, events[2]);
    let s4 = spec_step(s3, events[3]);
    let s5 = spec_step(s4, events[4]);
    let s6 = spec_step(s5, events[5]);
    let s7 = spec_step(s6, events[6]);
    let r1 = events.drop_first();
    let r2 = r1.drop_first();
    let r3 = r2.drop_first();
    let r4 = r3.drop_first();
    let r5 = r4.drop_first();
    let r6 = r5.drop_first();
    let r7 = r6.drop_first();
    assert(r1.first() == events[1]);
    assert(r2.first() == events[2]);
    assert(r3.first() == events[3]);
    assert(r4.first() == events[4]);
    assert(r5.first() == events[5]);
    assert(r6.first() == events[6]);
    assert(r7.len() == 0);
    assert(run(s0, events) == run(s1, r1));
    assert(run(s1, r1) == run(s2, r2));
    assert(run(s2, r2) == run(s3, r3));
    assert(run(s3, r3) == run(s4, r4));
    assert(run(s4, r4) == run(s5, r5));
    assert(run(s5, r5) == run(s6, r6));
    assert(run(s6, r6) == run(s7, r7));
}

/// Sampling is stateless: every run starts from a fresh sampler, so its
/// outcome is a function of the platform's replies alone.  Two consecutive
/// samples at the same static pointer over an unchanged screen see the same
/// replies, and so return the same color.
pub proof fn lemma_sample_idempotent(
    first: Seq<PlatformEventV>,
    second: Seq<PlatformEventV>,
)
    requires
        first == second,
    ensures
        run(init_v(), first) == run(init_v(), second),
{
}

} // verus!
