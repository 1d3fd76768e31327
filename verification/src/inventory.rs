//! A shirt giveaway: a store inventory that falls back to its best-stocked
//! colour when the winner states no preference.

use vstd::prelude::*;

verus! {

/// The colours the store stocks.
#[derive(Clone, Copy, PartialEq, Eq, Structural, Debug)]
pub enum ShirtColor {
    Red,
    Blue,
}

/// The store's stock, one entry per shirt.
pub struct Inventory {
    pub shirts: Vec<ShirtColor>,
}

/// How many shirts of colour `color` a stock holds.
pub open spec fn color_count(shirts: Seq<ShirtColor>, color: ShirtColor) -> nat {
    shirts.filter(|c: ShirtColor| c == color).len()
}

/// The colour a preference-less winner receives: red when strictly more red
/// shirts are stocked than blue, blue otherwise.
pub open spec fn best_stocked(shirts: Seq<ShirtColor>) -> ShirtColor {
    if color_count(shirts, ShirtColor::Red) > color_count(shirts, ShirtColor::Blue) {
        ShirtColor::Red
    } else {
        ShirtColor::Blue
    }
}

/// Appending one shirt raises the count of its own colour by one and leaves
/// the other colour's count alone.
proof fn lemma_color_count_push(shirts: Seq<ShirtColor>, color: ShirtColor, shirt: ShirtColor)
    ensures
        color_count(shirts.push(shirt), color) == color_count(shirts, color) + (if shirt == color {
            1nat
        } else {
            0nat
        }),
{
    reveal(Seq::filter);
    assert(shirts.push(shirt).drop_last() =~= shirts);
    assert(shirts.push(shirt).last() == shirt);
}

impl Inventory {
    /// The colour given away: the winner's preference when stated, otherwise
    /// the best-stocked colour.
    pub fn giveaway(&self, user_preference: Option<ShirtColor>) -> (c: ShirtColor)
        ensures
            user_preference matches Some(p) ==> c == p,
            user_preference is None ==> c == best_stocked(self.shirts@),
    {
        match user_preference {
            Some(p) => p,
            None => self.most_stocked(),
        }
    }

    /// The best-stocked colour, ties going to blue.
    pub fn most_stocked(&self) -> (c: ShirtColor)
        ensures
            c == best_stocked(self.shirts@),
    {
        let mut num_red: usize = 0;
        let mut num_blue: usize = 0;
        let mut i: usize = 0;
        while i < self.shirts.len()
            invariant
                i <= self.shirts@.len(),
                num_red == color_count(self.shirts@.take(i as int), ShirtColor::Red),
                num_blue == color_count(self.shirts@.take(i as int), ShirtColor::Blue),
                num_red + num_blue <= i,
            decreases self.shirts@.len() - i,
        {
            proof {
                assert(self.shirts@.take(i + 1) =~= self.shirts@.take(i as int).push(
                    self.shirts@[i as int],
                ));
                lemma_color_count_push(
                    self.shirts@.take(i as int),
                    ShirtColor::Red,
                    self.shirts@[i as int],
                );
                lemma_color_count_push(
                    self.shirts@.take(i as int),
                    ShirtColor::Blue,
                    self.shirts@[i as int],
                );
            }
            match self.shirts[i] {
                ShirtColor::Red => {
                    num_red = num_red + 1;
                }
                ShirtColor::Blue => {
                    num_blue = num_blue + 1;
                }
            }
            i = i + 1;
        }
        proof {
            assert(self.shirts@.take(i as int) =~= self.shirts@);
        }
        if num_red > num_blue {
            ShirtColor::Red
        } else {
            ShirtColor::Blue
        }
    }
}

} // verus!
