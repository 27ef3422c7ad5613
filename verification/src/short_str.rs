//! A short text value with a bounded character count.
//!
//! Extensions are stored in a bounded short string: a value longer than the
//! bound is a hard error at construction, never a truncation, since a
//! truncated extension would be wrong rather than merely imprecise.

use vstd::prelude::*;
use vstd::string::StrSliceExecFns;

verus! {

/// Maximum number of characters a `ShortStr` can hold.
pub const MAX_SHORT_STR_LEN: usize = 15;

/// A string whose character count never exceeds `MAX_SHORT_STR_LEN`.
///
/// The length invariant is enforced by the validating constructor [`ShortStr::new`]
/// and holds of every value of the type.
#[derive(Debug, Clone)]
pub struct ShortStr {
    text: String,
}

impl View for ShortStr {
    type V = Seq<char>;

    closed spec fn view(&self) -> Seq<char> {
        self.text@
    }
}

impl ShortStr {
    /// The length invariant of the type.
    pub open spec fn wf(&self) -> bool {
        self@.len() <= MAX_SHORT_STR_LEN
    }

    /// Builds a `ShortStr` from `s` exactly when `s` fits the bound.
    pub fn new(s: &str) -> (r: Option<ShortStr>)
        ensures
            s@.len() <= MAX_SHORT_STR_LEN ==> (r matches Some(v) && v@ == s@ && v.wf()),
            s@.len() > MAX_SHORT_STR_LEN ==> r is None,
    {
        let n = s.unicode_len();
        if n <= MAX_SHORT_STR_LEN {
            Some(ShortStr { text: s.to_owned() })
        } else {
            None
        }
    }

    /// The stored text.
    pub fn as_str(&self) -> (r: &str)
        ensures
            r@ == self@,
    {
        self.text.as_str()
    }

    /// Whether the stored text is empty.
    pub fn is_empty(&self) -> (r: bool)
        ensures
            r == (self@.len() == 0),
    {
        self.text.as_str().is_empty()
    }
}

} // verus!
