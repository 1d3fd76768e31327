//! Plain record types: a site user, an RGB colour, and rectangles.

use vstd::prelude::*;

verus! {

/// An account on the site.
pub struct User {
    pub active: bool,
    pub username: String,
    pub email: String,
    pub sign_in_count: u64,
}

/// An RGB colour triple.
pub struct Color(pub i32, pub i32, pub i32);

/// A fresh, active account with the given addresses and a single sign-in.
pub fn build_user(email: String, username: String) -> (user: User)
    ensures
        user.active,
        user.username == username,
        user.email == email,
        user.sign_in_count == 1,
{
    User { active: true, username, email, sign_in_count: 1 }
}

/// An axis-aligned rectangle, sized in pixels.
#[derive(PartialEq, Eq, Structural, Debug)]
pub struct Rectangle {
    pub width: u32,
    pub height: u32,
}

impl Rectangle {
    /// The area, width times height.
    pub fn area(&self) -> (a: u32)
        requires
            self.width * self.height <= u32::MAX,
        ensures
            a == self.width * self.height,
    {
        self.width * self.height
    }

    /// Whether `other` fits inside `self`, edges allowed to touch.
    pub fn can_hold(&self, other: &Rectangle) -> (fits: bool)
        ensures
            fits == (other.width <= self.width && other.height <= self.height),
    {
        other.width <= self.width && other.height <= self.height
    }

    /// The square with the given side.
    pub fn square(size: u32) -> (sq: Self)
        ensures
            sq.width == size,
            sq.height == size,
    {
        Self { width: size, height: size }
    }

    /// Whether the rectangle has a nonzero width.
    pub fn width(&self) -> (nonzero: bool)
        ensures
            nonzero == (self.width > 0),
    {
        self.width > 0
    }

    /// Nothing at all.
    pub fn nothing() {
    }
}

} // verus!
