//! The string type itself.

use std::ops::Deref;
use std::sync::Arc;
use vstd::prelude::*;

verus! {

/// A shared, immutable string.
///
/// Two values are the same string when their texts are the same; whether a
/// text is stored as a literal or on the heap, and in which allocation, is
/// no part of what a value is.
#[derive(Debug)]
pub enum Str {
    /// A reference-counted string on the heap. Several values may point to
    /// one allocation, also from different threads.
    Rc(Arc<String>),
    /// A string that lives for the whole run of the program.
    Static(&'static str),
}

impl View for Str {
    type V = Seq<char>;

    /// The text that the value holds, whichever way it is stored.
    open spec fn view(&self) -> Seq<char> {
        match *self {
            Str::Rc(rc) => (*rc)@,
            Str::Static(s) => s@,
        }
    }
}

/// `Arc::clone`: a second handle to the allocation that `a` points to. The
/// contract claims that the new handle holds the value that `a` holds.
#[verifier::external_body]
pub(crate) fn share(a: &Arc<String>) -> (r: Arc<String>)
    ensures
        r == *a,
{
    Arc::clone(a)
}

impl Str {
    /// Borrows the text as a string slice. Nothing is allocated or copied.
    pub fn borrow_str(&self) -> (r: &str)
        ensures
            r@ == self@,
    {
        match self {
            Str::Rc(rc) => rc.as_str(),
            Str::Static(s) => s,
        }
    }

    /// Copies the text into a new owned `String`.
    ///
    /// This is the one operation that copies the characters, so it has a name
    /// of its own and is meant to be rare. The result is independent of
    /// `self`: changing it leaves `self` as it was.
    pub fn duplicate(&self) -> (r: String)
        ensures
            r@ == self@,
    {
        let s: &str = self.borrow_str();
        s.to_owned()
    }

    /// The text as it is shown to a reader: the characters, with nothing
    /// added before or after.
    pub fn to_string(&self) -> (r: String)
        ensures
            r@ == self@,
    {
        self.duplicate()
    }
}

impl Clone for Str {
    /// A second reference to the same text: the literal again, or one more
    /// handle to the same allocation. The characters are not copied.
    fn clone(&self) -> (r: Str)
        ensures
            r == *self,
    {
        match self {
            Str::Rc(s) => Str::Rc(share(s)),
            Str::Static(s) => Str::Static(*s),
        }
    }
}

impl Deref for Str {
    type Target = str;

    fn deref(&self) -> (r: &str)
        ensures
            r@ == self@,
    {
        self.borrow_str()
    }
}

} // verus!
