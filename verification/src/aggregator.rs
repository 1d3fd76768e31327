//! Summaries of content items, in the manner of a feed aggregator.

use vstd::prelude::*;
use vstd::string::StringExecFns;
use std::fmt::Debug;
use std::fmt::Display;

verus! {

/// Behaviour shared by anything that can describe itself in one line.
pub trait Summary {
    /// What the summary says.
    spec fn summary(&self) -> Seq<char>;

    /// The one-line description.
    fn summarize(&self) -> (r: String)
        ensures
            r@ == self.summary(),
    ;

    /// The stock presentation of the summary, with a fixed prefix.
    fn default_fn(&self) -> (r: String)
        ensures
            r@ == "default "@ + self.summary(),
    {
        let prefix: String = "default ".to_owned();
        let body = self.summarize();
        prefix.concat(body.as_str())
    }
}

/// A news article. Its headline writes itself.
pub struct NewsArticle {}

impl Summary for NewsArticle {
    open spec fn summary(&self) -> Seq<char> {
        "wow hello"@
    }

    fn summarize(&self) -> (r: String) {
        "wow hello".to_owned()
    }
}

/// Put two items of the same kind side by side. Nothing is announced yet.
pub fn notify_two<T: Summary>(item1: &T, item2: &T) {
    let _ = item1;
    let _ = item2;
}

/// As [`notify_two`], for an item that can also display itself.
pub fn notify_more(item: &(impl Summary + Display)) {
    let _ = item;
}

/// As [`notify_more`], with the bound spelled as a type parameter.
pub fn notify_more_generic<T: Summary + Display>(item: &T) {
    let _ = item;
}

/// A function over two differently-bounded parameters; its answer is three.
pub fn some_function<T, U>(t: &T, u: &U) -> (r: i32) where
    T: Display + Clone,
    U: Clone + Debug,

    ensures
        r == 3,
{
    let _ = t;
    let _ = u;
    3
}

/// Some summarizable item — concretely, a news article.
pub fn returns_summarizable() -> (a: NewsArticle)
    ensures
        a.summary() == "wow hello"@,
{
    NewsArticle {  }
}

/// A pair of two values of one type.
pub struct Pair<T> {
    pub x: T,
    pub y: T,
}

impl<T> Pair<T> {
    /// The pair of the two given values.
    pub fn new(x: T, y: T) -> (p: Self)
        ensures
            p.x == x,
            p.y == y,
    {
        Self { x, y }
    }
}

} // verus!
