//! Button events and the debounce decision.
//!
//! Each physical button has its own debounce task; a settled press is
//! reported as a `ButtonCode` through a shared mailbox that the consumer
//! polls between turns. The edge waiting itself is hardware work and lives
//! with the driver; the decision of what a settled level means is here.

use vstd::prelude::*;

use crate::mailbox::Mailbox;

verus! {

/// Which button was pressed.
#[derive(Clone, Copy, Debug, PartialEq, Eq, Structural)]
pub enum ButtonCode {
    /// The A (left) button.
    PressedA,
    /// The B (right) button.
    PressedB,
}

/// Poll the button mailbox: the pending press, if any, and the mailbox is
/// empty afterwards.
pub fn try_get_code(channel: &mut Mailbox<ButtonCode>) -> (r: Option<ButtonCode>)
    ensures
        r == old(channel)@,
        final(channel)@ == Option::<ButtonCode>::None,
{
    channel.try_read()
}

/// The debounce decision: a bounce round ends when the level after the
/// settling wait differs from the one before it, and the settled level is
/// the new one; equal levels mean the edge was noise and the round goes on.
pub fn debounce_settled(was_low: bool, now_low: bool) -> (r: Option<bool>)
    ensures
        was_low != now_low ==> r == Some(now_low),
        was_low == now_low ==> r is None,
{
    if was_low != now_low {
        Some(now_low)
    } else {
        None
    }
}

} // verus!
