//! The pages a panel can show.

use vstd::prelude::*;
use crate::text::{eq_ignoring_ascii_case, eq_ignoring_ascii_case_exec};

verus! {

/// A display screen of the panel.
#[derive(Clone, Copy, Debug, PartialEq, Eq, Hash, Structural)]
pub enum Card {
    Screensaver,
    CardQR,
    CardAlarm,
    CardThermo,
    CardHome,
}

/// The protocol name of each card.
pub open spec fn card_name(c: Card) -> Seq<char> {
    match c {
        Card::Screensaver => "screensaver"@,
        Card::CardQR => "cardQR"@,
        Card::CardAlarm => "cardAlarm"@,
        Card::CardThermo => "cardThermo"@,
        Card::CardHome => "cardHome"@,
    }
}

/// The card whose name equals `s` up to ASCII case, if any.
pub open spec fn card_of_name(s: Seq<char>) -> Option<Card> {
    if eq_ignoring_ascii_case(s, "screensaver"@) {
        Some(Card::Screensaver)
    } else if eq_ignoring_ascii_case(s, "cardQR"@) {
        Some(Card::CardQR)
    } else if eq_ignoring_ascii_case(s, "cardAlarm"@) {
        Some(Card::CardAlarm)
    } else if eq_ignoring_ascii_case(s, "cardThermo"@) {
        Some(Card::CardThermo)
    } else if eq_ignoring_ascii_case(s, "cardHome"@) {
        Some(Card::CardHome)
    } else {
        None
    }
}

impl Card {
    /// The protocol name of the card.
    pub fn as_str(&self) -> (r: &'static str)
        ensures
            r@ == card_name(*self),
    {
        match self {
            Card::Screensaver => "screensaver",
            Card::CardQR => "cardQR",
            Card::CardAlarm => "cardAlarm",
            Card::CardThermo => "cardThermo",
            Card::CardHome => "cardHome",
        }
    }

    /// Reads a card name, ignoring ASCII case; `None` for an unknown name.
    pub fn parse(s: &str) -> (r: Option<Card>)
        ensures
            r == card_of_name(s@),
    {
        if eq_ignoring_ascii_case_exec(s, "screensaver") {
            Some(Card::Screensaver)
        } else if eq_ignoring_ascii_case_exec(s, "cardQR") {
            Some(Card::CardQR)
        } else if eq_ignoring_ascii_case_exec(s, "cardAlarm") {
            Some(Card::CardAlarm)
        } else if eq_ignoring_ascii_case_exec(s, "cardThermo") {
            Some(Card::CardThermo)
        } else if eq_ignoring_ascii_case_exec(s, "cardHome") {
            Some(Card::CardHome)
        } else {
            None
        }
    }
}

} // verus!
