use vstd::prelude::*;

use crate::piece::Color;

verus! {

/// A participant of the game: a name and the side they play.
pub struct Player {
    name: String,
    color: Color,
}

impl Player {
    /// The player's name, as characters.
    pub closed spec fn name_view(&self) -> Seq<char> {
        self.name@
    }

    /// The side the player plays.
    pub closed spec fn color_view(&self) -> Color {
        self.color
    }

    pub fn new(name: String, color: Color) -> (r: Self)
        ensures
            r.name_view() == name@,
            r.color_view() == color,
    {
        Player { name, color }
    }

    pub fn get_name(&self) -> (r: &String)
        ensures
            r@ == self.name_view(),
    {
        &self.name
    }

    pub fn get_color(&self) -> (r: &Color)
        ensures
            *r == self.color_view(),
    {
        &self.color
    }
}

} // verus!
