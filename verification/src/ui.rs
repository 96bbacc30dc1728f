use vstd::prelude::*;

verus! {

/// What the page does when the card is clicked.
#[derive(Debug, Clone, Copy, PartialEq, Eq, Structural)]
pub enum CardAction {
    /// The card shows its back: draw the next hand and write it on the front.
    DealNext,
    /// The card shows its front: write the hand's payment on the back.
    ShowPoints,
}

/// A click on the card turns it over; turning the back away deals the next
/// hand, turning the front away shows the points. Returns the action and
/// whether the card is flipped afterwards.
pub fn card_click(flipped: bool) -> (r: (CardAction, bool))
    ensures
        r.1 == !flipped,
        r.0 == (if flipped {
            CardAction::DealNext
        } else {
            CardAction::ShowPoints
        }),
{
    if flipped {
        (CardAction::DealNext, false)
    } else {
        (CardAction::ShowPoints, true)
    }
}

/// Whether a click toggles the options menu: a click on the menu button
/// always does, and a click outside the menu closes an open menu.
pub fn menu_click_toggles(open: bool, on_button: bool, inside_menu: bool) -> (r: bool)
    ensures
        r == (on_button || (!inside_menu && open)),
{
    if on_button {
        true
    } else {
        !inside_menu && open
    }
}

/// Toggling the options menu opens a closed menu and closes an open one.
pub fn toggle_menu(open: bool) -> (r: bool)
    ensures
        r == !open,
{
    !open
}

/// The fu are hidden on the front of the card from 5 han on, where they no
/// longer change the payment.
pub fn fu_hidden(han: u32) -> (r: bool)
    ensures
        r == (han >= 5),
{
    han >= 5
}

} // verus!
