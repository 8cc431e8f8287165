//! Borrowing the text of a string-like value, and turning such a value into
//! a `Str` as cheaply as its kind allows.

use crate::shared::{share, Str};
use std::rc::Rc;
use std::sync::Arc;
use vstd::prelude::*;

verus! {

/// A value whose text can be borrowed as a string slice.
pub trait StrRef {
    /// The text of the value.
    spec fn text(&self) -> Seq<char>;

    /// Borrows the text. Nothing is allocated or copied.
    fn borrow_str(&self) -> (r: &str)
        ensures
            r@ == self.text(),
    ;
}

/// A value that can hand out a `Str` of its text and stay in use.
pub trait ToStr: StrRef {
    /// A `Str` with the text of `self`.
    fn to_str(&self) -> (r: Str)
        ensures
            r@ == self.text(),
    ;
}

/// A value that can be given up for a `Str`.
pub trait IntoStr: StrRef {
    /// Turns `self` into a `Str` with the same text.
    fn into_str(self) -> (r: Str)
        ensures
            r@ == self.text(),
    ;
}

impl StrRef for Str {
    open spec fn text(&self) -> Seq<char> {
        self@
    }

    fn borrow_str(&self) -> (r: &str) {
        Str::borrow_str(self)
    }
}

impl StrRef for Arc<String> {
    open spec fn text(&self) -> Seq<char> {
        (**self)@
    }

    fn borrow_str(&self) -> (r: &str) {
        self.as_str()
    }
}

impl StrRef for str {
    open spec fn text(&self) -> Seq<char> {
        self@
    }

    fn borrow_str(&self) -> (r: &str) {
        self
    }
}

impl StrRef for &'static str {
    open spec fn text(&self) -> Seq<char> {
        (*self)@
    }

    fn borrow_str(&self) -> (r: &str) {
        self
    }
}

impl StrRef for String {
    open spec fn text(&self) -> Seq<char> {
        self@
    }

    fn borrow_str(&self) -> (r: &str) {
        self.as_str()
    }
}

impl<'f> StrRef for &'f String {
    open spec fn text(&self) -> Seq<char> {
        (*self)@
    }

    fn borrow_str(&self) -> (r: &str) {
        self.as_str()
    }
}

impl StrRef for Rc<String> {
    open spec fn text(&self) -> Seq<char> {
        (**self)@
    }

    fn borrow_str(&self) -> (r: &str) {
        self.as_str()
    }
}

impl ToStr for Str {
    /// The same value again, as `clone` gives it.
    fn to_str(&self) -> (r: Str)
        ensures
            r == *self,
    {
        self.clone()
    }
}

impl ToStr for Arc<String> {
    /// One more handle to the allocation of `self`.
    fn to_str(&self) -> (r: Str)
        ensures
            r == Str::Rc(*self),
    {
        Str::Rc(share(self))
    }
}

impl ToStr for &'static str {
    /// The literal itself.
    fn to_str(&self) -> (r: Str)
        ensures
            r == Str::Static(*self),
    {
        Str::Static(*self)
    }
}

impl IntoStr for Str {
    fn into_str(self) -> (r: Str)
        ensures
            r == self,
    {
        self
    }
}

impl IntoStr for String {
    /// The string moves to the heap as it is: its buffer is kept.
    fn into_str(self) -> (r: Str)
        ensures
            r matches Str::Rc(a) && *a == self,
    {
        Str::Rc(Arc::new(self))
    }
}

impl<'f> IntoStr for &'f String {
    /// A borrowed string cannot be taken over, so its text is copied once.
    fn into_str(self) -> (r: Str)
        ensures
            r matches Str::Rc(a) && *a == *self,
    {
        Str::Rc(Arc::new(self.clone()))
    }
}

impl IntoStr for Arc<String> {
    /// The allocation of `self` is kept.
    fn into_str(self) -> (r: Str)
        ensures
            r == Str::Rc(self),
    {
        Str::Rc(self)
    }
}

impl IntoStr for Rc<String> {
    /// A single-threaded count cannot be turned into an atomic one, so the
    /// text is copied once into an allocation of its own.
    fn into_str(self) -> (r: Str)
        ensures
            r matches Str::Rc(a) && *a == *self,
    {
        let s: &String = &*self;
        let cloned = s.clone();
        Str::Rc(Arc::new(cloned))
    }
}

impl IntoStr for &'static str {
    /// The literal itself: nothing is allocated.
    fn into_str(self) -> (r: Str)
        ensures
            r == Str::Static(self),
    {
        Str::Static(self)
    }
}

} // verus!
