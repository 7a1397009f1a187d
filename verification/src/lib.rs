//! Screen-color sampling on global mouse clicks.
//!
//! On a left click anywhere on the display, the pixel under the cursor is
//! captured and delivered as an uppercase `#RRGGBB` string, unless the cursor
//! is over the consumer's own window.  The platform work (cursor query,
//! window query, screen capture) is performed by a host loop; this crate
//! holds the verified decision logic: a step-driven sampler that tells the
//! host which platform call to make next, classifies every reply, accounts
//! for every graphics handle, and computes the color from the captured bits.

pub mod color;
pub mod geometry;
pub mod listener;
pub mod runs;
pub mod sampler;
