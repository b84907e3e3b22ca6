//! The overlay's mode, and the extended window style bits that go with it.

use vstd::prelude::*;
use crate::handle::NativeWindowHandle;

verus! {

/// Extended style bit: input falls through the window to what lies beneath.
pub const WS_EX_TRANSPARENT: u32 = 0x0000_0020;

/// Extended style bit: the window is layered, which makes the fall-through
/// apply to hit testing across processes.
pub const WS_EX_LAYERED: u32 = 0x0008_0000;

/// Extended style bit: the window is never activated by a click.
pub const WS_EX_NOACTIVATE: u32 = 0x0800_0000;

/// The extended style bits that the style controller owns. It sets all of them
/// in click-through mode, clears all of them otherwise, and leaves every other
/// bit as it finds it.
pub const CLICK_THROUGH_BITS: u32 = 0x0808_0020;

/// The overlay's mode: the only state that lasts from tick to tick.
#[derive(Clone, Copy, Debug, PartialEq, Eq, Structural)]
pub struct OverlayStyleState {
    /// Input passes through the overlay to the windows beneath it.
    pub click_through: bool,
    /// The user interface is drawn and receives input.
    pub interactive: bool,
}

impl OverlayStyleState {
    /// The mode at startup: interactive, not click-through.
    pub open spec fn startup() -> OverlayStyleState {
        OverlayStyleState { click_through: false, interactive: true }
    }

    /// The mode after a toggle: both flags flipped.
    pub open spec fn flipped(self) -> OverlayStyleState {
        OverlayStyleState { click_through: !self.click_through, interactive: !self.interactive }
    }

    /// The overlay is in one of its two modes: click-through with nothing
    /// drawn, or interactive with the user interface drawn.
    pub open spec fn coherent(self) -> bool {
        self.click_through != self.interactive
    }

    /// The mode at startup: interactive, not click-through.
    pub fn initial() -> (state: OverlayStyleState)
        ensures
            state == OverlayStyleState::startup(),
    {
        OverlayStyleState { click_through: false, interactive: true }
    }

    /// The mode after a toggle edge: both flags flipped.
    pub fn toggled(self) -> (state: OverlayStyleState)
        ensures
            state == self.flipped(),
    {
        OverlayStyleState { click_through: !self.click_through, interactive: !self.interactive }
    }
}

/// The extended style bits that put a window whose bits are `current` into the
/// mode `desired`.
pub open spec fn style_bits_for(current: u32, desired: OverlayStyleState) -> u32 {
    if desired.click_through {
        current | CLICK_THROUGH_BITS
    } else {
        current & !CLICK_THROUGH_BITS
    }
}

/// `bits` are those of a window in the mode `state`.
pub open spec fn style_matches(bits: u32, state: OverlayStyleState) -> bool {
    if state.click_through {
        bits & CLICK_THROUGH_BITS == CLICK_THROUGH_BITS
    } else {
        bits & CLICK_THROUGH_BITS == 0
    }
}

/// An order to write extended style bits to a window.
#[derive(Clone, Copy, Debug, PartialEq, Eq, Structural)]
pub struct StyleWrite {
    /// The window to write to.
    pub handle: NativeWindowHandle,
    /// The complete extended style word to write.
    pub bits: u32,
}

/// Decides the overlay's extended style bits. It is bound to the overlay's
/// window and never orders a write to any other.
#[derive(Clone, Copy, Debug, PartialEq, Eq, Structural)]
pub struct StyleController {
    /// The overlay's own window.
    pub overlay: NativeWindowHandle,
}

impl StyleController {
    /// A controller for the overlay window `overlay`.
    pub fn new(overlay: NativeWindowHandle) -> (controller: StyleController)
        ensures
            controller.overlay == overlay,
    {
        StyleController { overlay }
    }

    /// Given the extended style bits that the overlay has now, orders the bits
    /// that put it into the mode `desired`: the owned bits all set for
    /// click-through and all clear otherwise, every other bit unchanged.
    pub fn apply(&self, current: u32, desired: OverlayStyleState) -> (write: StyleWrite)
        ensures
            write.handle == self.overlay,
            write.bits == style_bits_for(current, desired),
            style_matches(write.bits, desired),
            write.bits & !CLICK_THROUGH_BITS == current & !CLICK_THROUGH_BITS,
    {
        let bits: u32 = if desired.click_through {
            current | CLICK_THROUGH_BITS
        } else {
            current & !CLICK_THROUGH_BITS
        };
        proof {
            lemma_style_bits_reach_mode(current, desired);
        }
        StyleWrite { handle: self.overlay, bits }
    }
}

/// The bits computed for a mode are those of a window in that mode, and differ
/// from the bits before in the owned bits at most.
pub proof fn lemma_style_bits_reach_mode(current: u32, desired: OverlayStyleState)
    ensures
        style_matches(style_bits_for(current, desired), desired),
        style_bits_for(current, desired) & !CLICK_THROUGH_BITS == current & !CLICK_THROUGH_BITS,
{
    assert((current | CLICK_THROUGH_BITS) & CLICK_THROUGH_BITS == CLICK_THROUGH_BITS) by (bit_vector);
    assert((current & !CLICK_THROUGH_BITS) & CLICK_THROUGH_BITS == 0) by (bit_vector);
    assert((current | CLICK_THROUGH_BITS) & !CLICK_THROUGH_BITS == current & !CLICK_THROUGH_BITS)
        by (bit_vector);
    assert((current & !CLICK_THROUGH_BITS) & !CLICK_THROUGH_BITS == current & !CLICK_THROUGH_BITS)
        by (bit_vector);
}

/// The owned bits are the fall-through bit, the layered bit and the
/// no-activation bit, and nothing else.
pub proof fn lemma_owned_bits()
    ensures
        CLICK_THROUGH_BITS == WS_EX_TRANSPARENT | WS_EX_LAYERED | WS_EX_NOACTIVATE,
{
    assert(0x0000_0020u32 | 0x0008_0000u32 | 0x0800_0000u32 == 0x0808_0020u32) by (bit_vector);
}

/// Applying a mode is idempotent: the bits computed from the result of a first
/// application are that result again.
pub proof fn lemma_apply_is_idempotent(current: u32, desired: OverlayStyleState)
    ensures
        style_bits_for(style_bits_for(current, desired), desired) == style_bits_for(
            current,
            desired,
        ),
{
    assert((current | CLICK_THROUGH_BITS) | CLICK_THROUGH_BITS == current | CLICK_THROUGH_BITS)
        by (bit_vector);
    assert((current & !CLICK_THROUGH_BITS) & !CLICK_THROUGH_BITS == current & !CLICK_THROUGH_BITS)
        by (bit_vector);
}

/// Bits that are already those of the desired mode are left as they are.
pub proof fn lemma_apply_keeps_matching_bits(current: u32, desired: OverlayStyleState)
    requires
        style_matches(current, desired),
    ensures
        style_bits_for(current, desired) == current,
{
    assert(current & CLICK_THROUGH_BITS == CLICK_THROUGH_BITS ==> current | CLICK_THROUGH_BITS == current)
        by (bit_vector);
    assert(current & CLICK_THROUGH_BITS == 0 ==> current & !CLICK_THROUGH_BITS == current)
        by (bit_vector);
}

/// Toggling twice brings the overlay back: from bits that are those of a mode,
/// applying the flipped mode and then the mode itself gives the first bits.
pub proof fn lemma_double_toggle_restores(current: u32, state: OverlayStyleState)
    requires
        style_matches(current, state),
    ensures
        state.flipped().flipped() == state,
        style_bits_for(style_bits_for(current, state.flipped()), state) == current,
{
    assert(current & CLICK_THROUGH_BITS == CLICK_THROUGH_BITS ==> (current & !CLICK_THROUGH_BITS)
        | CLICK_THROUGH_BITS == current) by (bit_vector);
    assert(current & CLICK_THROUGH_BITS == 0 ==> (current | CLICK_THROUGH_BITS) & !CLICK_THROUGH_BITS
        == current) by (bit_vector);
}

} // verus!
