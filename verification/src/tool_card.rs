//! The card that stands for one tool in the list of tools.

use vstd::prelude::*;

verus! {

/// The colour of a card's text.
#[derive(Clone, Copy, Debug, PartialEq, Eq, Structural)]
pub enum CardTone {
    White,
    Gray,
    Black,
}

/// A caption and a line of description.
pub struct ToolCard<'a> {
    caption: &'a str,
    description: &'a str,
}

impl<'a> ToolCard<'a> {
    /// The caption, as a sequence of characters.
    pub closed spec fn spec_caption(&self) -> Seq<char> {
        self.caption@
    }

    /// The description, as a sequence of characters.
    pub closed spec fn spec_description(&self) -> Seq<char> {
        self.description@
    }

    /// A card with the given caption and description.
    pub fn new(caption: &'a str, description: &'a str) -> (r: Self)
        ensures
            r.spec_caption() == caption@,
            r.spec_description() == description@,
    {
        ToolCard { caption, description }
    }

    /// The caption.
    pub fn caption(&self) -> (r: &'a str)
        ensures
            r@ == self.spec_caption(),
    {
        self.caption
    }

    /// The description.
    pub fn description(&self) -> (r: &'a str)
        ensures
            r@ == self.spec_description(),
    {
        self.description
    }

    /// The colour of a card's text: the card of the tool in use stands out against
    /// the background, white on dark and black on light; every other card is gray.
    pub open spec fn spec_tone(active: bool, dark_mode: bool) -> CardTone {
        if !active {
            CardTone::Gray
        } else if dark_mode {
            CardTone::White
        } else {
            CardTone::Black
        }
    }

    /// Computes `spec_tone`.
    pub fn tone(active: bool, dark_mode: bool) -> (r: CardTone)
        ensures
            r == Self::spec_tone(active, dark_mode),
    {
        match (active, dark_mode) {
            (true, true) => CardTone::White,
            (false, true) => CardTone::Gray,
            (true, false) => CardTone::Black,
            (false, false) => CardTone::Gray,
        }
    }
}

} // verus!
