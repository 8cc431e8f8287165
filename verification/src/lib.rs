//! Immutable string references.
//!
//! Strings here are used the way platforms with immutable strings use them:
//! a string is a value that is handed round by reference and never changed.
//! A [`Str`] is either a string literal, which lives as long as the program,
//! or a reference-counted string on the heap. Copies of a `Str` share the
//! text, so the same string can be stored in several places (fields, vector
//! elements, map keys) without lifetimes and without copying its characters.
//!
//! The reference count is atomic: a `Str` may cross threads. A string held by
//! a single-threaded `Rc` cannot share its allocation with a `Str`; turning
//! one into a `Str` copies the text once.
//!
//! Every contract speaks of the text of a value, its view: a sequence of
//! characters. How the text is stored never shows in a comparison.

pub mod compare;
pub mod convert;
pub mod order;
pub mod shared;

pub use convert::{IntoStr, StrRef, ToStr};
pub use shared::Str;
