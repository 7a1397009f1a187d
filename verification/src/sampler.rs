//! The screen sampler, modeled as a step-driven state machine.
//!
//! One sample is one machine, driven by the host's platform loop: the machine
//! names the next platform call ([`Action`]), the host performs it and hands
//! the reply back as a [`PlatformEvent`].  Every decision — classifying
//! failed queries, skipping the consumer's own window, accounting for
//! graphics handles, extracting the pixel and rendering the color — is made
//! here and verified.  The host performs the calls and nothing else.

use vstd::prelude::*;

use crate::color::Rgb;
use crate::color::color_hex;
use crate::color::spec_color_hex;
use crate::geometry::DisplaySize;
use crate::geometry::ScreenPoint;
use crate::geometry::WindowBounds;
use crate::geometry::contains;
use crate::geometry::on_display;
use crate::geometry::spec_contains;
use crate::geometry::spec_on_display;

verus! {

/// A classified sampling failure.
#[derive(Clone, Copy, Debug, PartialEq, Eq, Structural)]
pub enum SampleError {
    /// The pointer position could not be read.
    CursorQueryError,
    /// The consumer window's rectangle could not be read.
    WindowQueryError,
    /// The screen-to-memory block transfer reported failure.
    CaptureBlitError,
    /// The pixel bits could not be extracted from the off-screen bitmap.
    PixelExtractError,
    /// The pointer lies outside the captured buffer (for instance on a
    /// secondary monitor with negative coordinates).
    OutOfBoundsError,
}

/// What one sample run delivers.
#[derive(Clone, Debug, PartialEq, Eq)]
pub enum SampleOutcome {
    /// The captured color, as an uppercase `#RRGGBB` string.
    Color(String),
    /// The pointer was over the consumer's own window; no capture was
    /// attempted.  An expected skip, not a failure.
    InsideOwnWindow,
    /// A classified failure; the caller logs it and drops it.
    Failed(SampleError),
}

/// Mathematical value of a [`SampleOutcome`].
pub enum OutcomeV {
    Color(Seq<char>),
    InsideOwnWindow,
    Failed(SampleError),
}

impl View for SampleOutcome {
    type V = OutcomeV;

    open spec fn view(&self) -> OutcomeV {
        match self {
            SampleOutcome::Color(s) => OutcomeV::Color(s@),
            SampleOutcome::InsideOwnWindow => OutcomeV::InsideOwnWindow,
            SampleOutcome::Failed(e) => OutcomeV::Failed(*e),
        }
    }
}

/// A platform reply, handed to [`Sampler::step`] by the host loop.
#[derive(Debug)]
pub enum PlatformEvent {
    /// The pointer position, or `None` if the query failed.
    CursorReply(Option<ScreenPoint>),
    /// The consumer window's rectangle, or `None` if the query failed.
    RectReply(Option<WindowBounds>),
    /// The primary display's dimensions.
    DisplayReply(DisplaySize),
    /// The screen-reading context, the off-screen context and the off-screen
    /// bitmap were acquired and the bitmap was selected.
    Acquired,
    /// Whether the full-screen block transfer succeeded.
    BlitReply(bool),
    /// The extracted pixel buffer — BGR bytes in top-down row-major order —
    /// or `None` if extraction failed.
    BitsReply(Option<Vec<u8>>),
    /// Every acquired graphics handle was released.
    Released,
}

/// Mathematical value of a [`PlatformEvent`].
pub enum PlatformEventV {
    CursorReply(Option<ScreenPoint>),
    RectReply(Option<WindowBounds>),
    DisplayReply(DisplaySize),
    Acquired,
    BlitReply(bool),
    BitsReply(Option<Seq<u8>>),
    Released,
}

impl View for PlatformEvent {
    type V = PlatformEventV;

    open spec fn view(&self) -> PlatformEventV {
        match self {
            PlatformEvent::CursorReply(p) => PlatformEventV::CursorReply(*p),
            PlatformEvent::RectReply(r) => PlatformEventV::RectReply(*r),
            PlatformEvent::DisplayReply(d) => PlatformEventV::DisplayReply(*d),
            PlatformEvent::Acquired => PlatformEventV::Acquired,
            PlatformEvent::BlitReply(ok) => PlatformEventV::BlitReply(*ok),
            PlatformEvent::BitsReply(b) => PlatformEventV::BitsReply(
                match b {
                    Some(bits) => Some(bits@),
                    None => None,
                },
            ),
            PlatformEvent::Released => PlatformEventV::Released,
        }
    }
}

/// The platform call the host must make next.
#[derive(Clone, Copy, Debug, PartialEq, Eq, Structural)]
pub enum Action {
    /// Query the pointer position.
    QueryCursor,
    /// Query the consumer window's rectangle.
    QueryRect,
    /// Query the primary display's dimensions.
    QueryDisplay,
    /// Acquire the screen context, a compatible off-screen context and an
    /// off-screen bitmap sized to the display; select the bitmap.
    Acquire { display: DisplaySize },
    /// Copy the full screen into the off-screen context in one block
    /// transfer.
    Blit { display: DisplaySize },
    /// Extract the full pixel buffer, top-down, 3 bytes per pixel.
    ExtractBits { display: DisplaySize },
    /// Release every acquired graphics handle.
    Release,
    /// The run is over; take the outcome.
    Finished,
}

/// Where a sample run stands.
#[derive(Debug)]
pub enum Phase {
    /// Waiting for the pointer position.
    AwaitCursor,
    /// Waiting for the consumer window's rectangle.
    AwaitRect { cursor: ScreenPoint },
    /// Waiting for the primary display's dimensions.
    AwaitDisplay { cursor: ScreenPoint },
    /// Waiting for the graphics contexts and the off-screen bitmap.
    AwaitAcquire { cursor: ScreenPoint, display: DisplaySize },
    /// Waiting for the block transfer's verdict.
    AwaitBlit { cursor: ScreenPoint, display: DisplaySize },
    /// Waiting for the extracted pixel buffer.
    AwaitBits { cursor: ScreenPoint, display: DisplaySize },
    /// The outcome is decided; waiting for the handles to be released.
    AwaitRelease { pending: SampleOutcome },
    /// The run is over.
    Done { outcome: SampleOutcome },
}

/// Mathematical value of a [`Phase`].
pub enum PhaseV {
    AwaitCursor,
    AwaitRect { cursor: ScreenPoint },
    AwaitDisplay { cursor: ScreenPoint },
    AwaitAcquire { cursor: ScreenPoint, display: DisplaySize },
    AwaitBlit { cursor: ScreenPoint, display: DisplaySize },
    AwaitBits { cursor: ScreenPoint, display: DisplaySize },
    AwaitRelease { pending: OutcomeV },
    Done { outcome: OutcomeV },
}

impl View for Phase {
    type V = PhaseV;

    open spec fn view(&self) -> PhaseV {
        match self {
            Phase::AwaitCursor => PhaseV::AwaitCursor,
            Phase::AwaitRect { cursor } => PhaseV::AwaitRect { cursor: *cursor },
            Phase::AwaitDisplay { cursor } => PhaseV::AwaitDisplay { cursor: *cursor },
            Phase::AwaitAcquire { cursor, display } => PhaseV::AwaitAcquire {
                cursor: *cursor,
                display: *display,
            },
            Phase::AwaitBlit { cursor, display } => PhaseV::AwaitBlit {
                cursor: *cursor,
                display: *display,
            },
            Phase::AwaitBits { cursor, display } => PhaseV::AwaitBits {
                cursor: *cursor,
                display: *display,
            },
            Phase::AwaitRelease { pending } => PhaseV::AwaitRelease { pending: pending@ },
            Phase::Done { outcome } => PhaseV::Done { outcome: outcome@ },
        }
    }
}

/// One sample run: the current phase plus a count of graphics handles
/// acquired and released by the host on this run's behalf.
#[derive(Debug)]
pub struct Sampler {
    pub phase: Phase,
    pub acquired: u64,
    pub released: u64,
}

/// Mathematical value of a [`Sampler`].
pub struct SamplerV {
    pub phase: PhaseV,
    pub acquired: nat,
    pub released: nat,
}

impl View for Sampler {
    type V = SamplerV;

    open spec fn view(&self) -> SamplerV {
        SamplerV {
            phase: self.phase@,
            acquired: self.acquired as nat,
            released: self.released as nat,
        }
    }
}

/// Whether a phase holds live graphics handles.  Three handles — the screen
/// context, the off-screen context and the off-screen bitmap — are acquired
/// in one step and released in one step.
pub open spec fn holds_handles(p: PhaseV) -> bool {
    ||| p is AwaitBlit
    ||| p is AwaitBits
    ||| p is AwaitRelease
}

impl SamplerV {
    /// Handle accounting matches the phase: nothing is held before the
    /// acquisition step or after the release step, and a finished run has
    /// released exactly what it acquired.
    pub open spec fn wf(self) -> bool {
        &&& holds_handles(self.phase) ==> self.acquired == 3 && self.released == 0
        &&& (self.phase is AwaitCursor || self.phase is AwaitRect || self.phase is AwaitDisplay
            || self.phase is AwaitAcquire) ==> self.acquired == 0 && self.released == 0
        &&& self.phase is Done ==> self.released == self.acquired && (self.acquired == 0
            || self.acquired == 3)
    }

    /// Handles acquired and not yet released.
    pub open spec fn outstanding(self) -> int {
        self.acquired - self.released
    }
}

/// The sampler a fresh run starts from.
pub open spec fn init_v() -> SamplerV {
    SamplerV { phase: PhaseV::AwaitCursor, acquired: 0, released: 0 }
}

/// The pixel the pointer covers, read from a captured buffer.
///
/// `bits` holds the display top-down, row-major, 3 bytes per pixel in
/// blue-green-red order; the pixel's bytes start at `(y * width + x) * 3`.
/// A pointer off the display, or an index past the buffer, is rejected as
/// [`SampleError::OutOfBoundsError`] rather than read out of range.
pub open spec fn spec_extract(bits: Seq<u8>, p: ScreenPoint, d: DisplaySize) -> Result<
    Rgb,
    SampleError,
> {
    if !spec_on_display(d, p) {
        Err(SampleError::OutOfBoundsError)
    } else {
        let idx = (p.y * d.width + p.x) * 3;
        if bits.len() < idx + 3 {
            Err(SampleError::OutOfBoundsError)
        } else {
            Ok(Rgb { red: bits[idx + 2], green: bits[idx + 1], blue: bits[idx] })
        }
    }
}

/// Reads the pointer's pixel out of a captured buffer, defending against
/// out-of-range coordinates.
pub fn extract_color(bits: &Vec<u8>, p: ScreenPoint, d: DisplaySize) -> (r: Result<
    Rgb,
    SampleError,
>)
    ensures
        r == spec_extract(bits@, p, d),
{
    if !on_display(&d, p) {
        return Err(SampleError::OutOfBoundsError);
    }
    let xu: u64 = p.x as u64;
    let yu: u64 = p.y as u64;
    let wu: u64 = d.width as u64;
    proof {
        assert(yu * wu <= 0x7fffffff * 0x7fffffff) by (nonlinear_arith)
            requires
                yu <= 0x7fffffff,
                wu <= 0x7fffffff,
        ;
    }
    let idx: u64 = (yu * wu + xu) * 3;
    if (bits.len() as u64) < idx + 3 {
        return Err(SampleError::OutOfBoundsError);
    }
    let i: usize = idx as usize;
    Ok(Rgb { red: bits[i + 2], green: bits[i + 1], blue: bits[i] })
}

/// The outcome decided by a successfully extracted buffer: the rendered
/// color, or an out-of-bounds failure.
pub open spec fn spec_decide_bits(bits: Seq<u8>, cursor: ScreenPoint, d: DisplaySize) -> OutcomeV {
    match spec_extract(bits, cursor, d) {
        Ok(rgb) => OutcomeV::Color(spec_color_hex(rgb)),
        Err(e) => OutcomeV::Failed(e),
    }
}

/// The sampler's transition function.
///
/// A reply that does not answer the pending phase leaves the run unchanged.
pub open spec fn spec_step(s: SamplerV, e: PlatformEventV) -> SamplerV {
    match (s.phase, e) {
        (PhaseV::AwaitCursor, PlatformEventV::CursorReply(reply)) => match reply {
            Some(cursor) => SamplerV { phase: PhaseV::AwaitRect { cursor }, ..s },
            None => SamplerV {
                phase: PhaseV::Done {
                    outcome: OutcomeV::Failed(SampleError::CursorQueryError),
                },
                ..s
            },
        },
        (PhaseV::AwaitRect { cursor }, PlatformEventV::RectReply(reply)) => match reply {
            Some(rect) => if spec_contains(rect, cursor) {
                SamplerV { phase: PhaseV::Done { outcome: OutcomeV::InsideOwnWindow }, ..s }
            } else {
                SamplerV { phase: PhaseV::AwaitDisplay { cursor }, ..s }
            },
            None => SamplerV {
                phase: PhaseV::Done {
                    outcome: OutcomeV::Failed(SampleError::WindowQueryError),
                },
                ..s
            },
        },
        (PhaseV::AwaitDisplay { cursor }, PlatformEventV::DisplayReply(display)) => SamplerV {
            phase: PhaseV::AwaitAcquire { cursor, display },
            ..s
        },
        (PhaseV::AwaitAcquire { cursor, display }, PlatformEventV::Acquired) => SamplerV {
            phase: PhaseV::AwaitBlit { cursor, display },
            acquired: s.acquired + 3,
            ..s
        },
        (PhaseV::AwaitBlit { cursor, display }, PlatformEventV::BlitReply(ok)) => if ok {
            SamplerV { phase: PhaseV::AwaitBits { cursor, display }, ..s }
        } else {
            SamplerV {
                phase: PhaseV::AwaitRelease {
                    pending: OutcomeV::Failed(SampleError::CaptureBlitError),
                },
                ..s
            }
        },
        (PhaseV::AwaitBits { cursor, display }, PlatformEventV::BitsReply(reply)) => match reply {
            Some(bits) => SamplerV {
                phase: PhaseV::AwaitRelease { pending: spec_decide_bits(bits, cursor, display) },
                ..s
            },
            None => SamplerV {
                phase: PhaseV::AwaitRelease {
                    pending: OutcomeV::Failed(SampleError::PixelExtractError),
                },
                ..s
            },
        },
        (PhaseV::AwaitRelease { pending }, PlatformEventV::Released) => SamplerV {
            phase: PhaseV::Done { outcome: pending },
            released: s.released + 3,
            ..s
        },
        _ => s,
    }
}

/// The next platform call a phase waits for.
pub open spec fn spec_action(p: PhaseV) -> Action {
    match p {
        PhaseV::AwaitCursor => Action::QueryCursor,
        PhaseV::AwaitRect { .. } => Action::QueryRect,
        PhaseV::AwaitDisplay { .. } => Action::QueryDisplay,
        PhaseV::AwaitAcquire { display, .. } => Action::Acquire { display },
        PhaseV::AwaitBlit { display, .. } => Action::Blit { display },
        PhaseV::AwaitBits { display, .. } => Action::ExtractBits { display },
        PhaseV::AwaitRelease { .. } => Action::Release,
        PhaseV::Done { .. } => Action::Finished,
    }
}

/// One step keeps the handle accounting well formed.
pub proof fn lemma_step_preserves_wf(s: SamplerV, e: PlatformEventV)
    requires
        s.wf(),
    ensures
        spec_step(s, e).wf(),
{
}

impl Sampler {
    /// A fresh run, waiting for the pointer position.
    pub fn new() -> (s: Sampler)
        ensures
            s@ == init_v(),
            s@.wf(),
    {
        Sampler { phase: Phase::AwaitCursor, acquired: 0, released: 0 }
    }

    /// Feeds one platform reply to the run and advances it one transition of
    /// [`spec_step`].
    pub fn step(self, e: PlatformEvent) -> (r: Sampler)
        requires
            self@.wf(),
        ensures
            r@ == spec_step(self@, e@),
            r@.wf(),
    {
        proof {
            lemma_step_preserves_wf(self@, e@);
        }
        let Sampler { phase, acquired, released } = self;
        match (phase, e) {
            (Phase::AwaitCursor, PlatformEvent::CursorReply(reply)) => match reply {
                Some(cursor) => Sampler { phase: Phase::AwaitRect { cursor }, acquired, released },
                None => Sampler {
                    phase: Phase::Done {
                        outcome: SampleOutcome::Failed(SampleError::CursorQueryError),
                    },
                    acquired,
                    released,
                },
            },
            (Phase::AwaitRect { cursor }, PlatformEvent::RectReply(reply)) => match reply {
                Some(rect) => if contains(&rect, cursor) {
                    Sampler {
                        phase: Phase::Done { outcome: SampleOutcome::InsideOwnWindow },
                        acquired,
                        released,
                    }
                } else {
                    Sampler { phase: Phase::AwaitDisplay { cursor }, acquired, released }
                },
                None => Sampler {
                    phase: Phase::Done {
                        outcome: SampleOutcome::Failed(SampleError::WindowQueryError),
                    },
                    acquired,
                    released,
                },
            },
            (Phase::AwaitDisplay { cursor }, PlatformEvent::DisplayReply(display)) => Sampler {
                phase: Phase::AwaitAcquire { cursor, display },
                acquired,
                released,
            },
            (Phase::AwaitAcquire { cursor, display }, PlatformEvent::Acquired) => Sampler {
                phase: Phase::AwaitBlit { cursor, display },
                acquired: acquired + 3,
                released,
            },
            (Phase::AwaitBlit { cursor, display }, PlatformEvent::BlitReply(ok)) => if ok {
                Sampler { phase: Phase::AwaitBits { cursor, display }, acquired, released }
            } else {
                Sampler {
                    phase: Phase::AwaitRelease {
                        pending: SampleOutcome::Failed(SampleError::CaptureBlitError),
                    },
                    acquired,
                    released,
                }
            },
            (Phase::AwaitBits { cursor, display }, PlatformEvent::BitsReply(reply)) => match reply {
                Some(bits) => {
                    let pending = match extract_color(&bits, cursor, display) {
                        Ok(rgb) => SampleOutcome::Color(color_hex(rgb)),
                        Err(err) => SampleOutcome::Failed(err),
                    };
                    Sampler { phase: Phase::AwaitRelease { pending }, acquired, released }
                },
                None => Sampler {
                    phase: Phase::AwaitRelease {
                        pending: SampleOutcome::Failed(SampleError::PixelExtractError),
                    },
                    acquired,
                    released,
                },
            },
            (Phase::AwaitRelease { pending }, PlatformEvent::Released) => Sampler {
                phase: Phase::Done { outcome: pending },
                acquired,
                released: released + 3,
            },
            (phase, _) => Sampler { phase, acquired, released },
        }
    }

    /// The platform call the host must make next.
    pub fn next_action(&self) -> (a: Action)
        ensures
            a == spec_action(self@.phase),
    {
        match &self.phase {
            Phase::AwaitCursor => Action::QueryCursor,
            Phase::AwaitRect { .. } => Action::QueryRect,
            Phase::AwaitDisplay { .. } => Action::QueryDisplay,
            Phase::AwaitAcquire { display, .. } => Action::Acquire { display: *display },
            Phase::AwaitBlit { display, .. } => Action::Blit { display: *display },
            Phase::AwaitBits { display, .. } => Action::ExtractBits { display: *display },
            Phase::AwaitRelease { .. } => Action::Release,
            Phase::Done { .. } => Action::Finished,
        }
    }

    /// Whether the run is over.
    pub fn is_done(&self) -> (b: bool)
        ensures
            b == (self@.phase is Done),
    {
        match &self.phase {
            Phase::Done { .. } => true,
            _ => false,
        }
    }

    /// Graphics handles acquired on this run's behalf.
    pub fn handles_acquired(&self) -> (n: u64)
        ensures
            n as nat == self@.acquired,
    {
        self.acquired
    }

    /// Graphics handles released on this run's behalf.
    pub fn handles_released(&self) -> (n: u64)
        ensures
            n as nat == self@.released,
    {
        self.released
    }

    /// Graphics handles acquired and not yet released.
    pub fn handles_outstanding(&self) -> (n: u64)
        requires
            self@.wf(),
        ensures
            n as int == self@.outstanding(),
    {
        self.acquired - self.released
    }

    /// The outcome of a finished run, or `None` while the run is still under
    /// way.
    pub fn into_outcome(self) -> (r: Option<SampleOutcome>)
        ensures
            match self@.phase {
                PhaseV::Done { outcome } => r matches Some(o) && o@ == outcome,
                _ => r is None,
            },
    {
        match self.phase {
            Phase::Done { outcome } => Some(outcome),
            _ => None,
        }
    }
}

} // verus!
