//! Drawable components and a screen that renders them in order.

use vstd::prelude::*;

verus! {

/// Behaviour of anything a screen can draw.
pub trait Draw {
    /// What drawing the component produces.
    spec fn rendered(&self) -> Seq<char>;

    /// Draw the component: hand back its rendering.
    fn draw(&self) -> (r: String)
        ensures
            r@ == self.rendered(),
    ;
}

/// A push button with a size and a label.
pub struct Button {
    pub width: u32,
    pub height: u32,
    pub label: String,
}

impl Draw for Button {
    open spec fn rendered(&self) -> Seq<char> {
        "blah"@
    }

    fn draw(&self) -> (r: String) {
        "blah".to_owned()
    }
}

/// A screen full of drawable components of one kind.
pub struct Screen<T: Draw> {
    pub components: Vec<T>,
}

impl<T: Draw> Screen<T> {
    /// Draw every component, first to last, and hand back the renderings in
    /// the same order.
    pub fn run(&self) -> (out: Vec<String>)
        ensures
            out@.len() == self.components@.len(),
            forall|i: int|
                0 <= i < out@.len() ==> out@[i]@ == self.components@[i].rendered(),
    {
        let mut out: Vec<String> = Vec::new();
        let mut i: usize = 0;
        while i < self.components.len()
            invariant
                i <= self.components@.len(),
                out@.len() == i,
                forall|j: int| 0 <= j < i ==> out@[j]@ == self.components@[j].rendered(),
            decreases self.components@.len() - i,
        {
            out.push(self.components[i].draw());
            i = i + 1;
        }
        out
    }
}

} // verus!
