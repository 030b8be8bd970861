//! An immutable, reference-counted UTF-8 string with constant-time clone.
use vstd::prelude::*;

pub mod lex;
pub mod small_str;

pub use small_str::PlSmallStr;

verus! {

} // verus!
