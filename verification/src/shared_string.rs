//! A shared, immutable text handle.

use std::sync::Arc;
use vstd::prelude::*;
use vstd::string::StringSliceAdditionalSpecFns;
use vstd::utf8::{decode_utf8, encode_utf8, encode_utf8_decode_utf8};
use vstd::std_specs::cmp::PartialEqSpecImpl;
use vstd::std_specs::convert::FromSpecImpl;

verus! {

/// Immutable text that is cheap to clone: either a borrowed static string or a
/// reference-counted owned one. Two handles stand for the same text when their
/// views are equal.
#[derive(Debug)]
pub enum SharedString {
    Borrowed(&'static str),
    Owned(Arc<String>),
}

impl View for SharedString {
    type V = Seq<char>;

    open spec fn view(&self) -> Seq<char> {
        match self {
            SharedString::Borrowed(s) => s@,
            SharedString::Owned(s) => s@,
        }
    }
}

/// `Arc::clone`: the new handle points to the same allocation, so it holds
/// the same string as the handle it was cloned from.
#[verifier::external_body]
fn share(text: &Arc<String>) -> (r: Arc<String>)
    ensures
        r == *text,
{
    Arc::clone(text)
}

/// Whether two string slices hold the same characters, decided on their
/// bytes: an encoding determines the text it encodes.
fn same_text(a: &str, b: &str) -> (r: bool)
    ensures
        r == (a@ == b@),
{
    let left = a.as_bytes();
    let right = b.as_bytes();
    proof {
        encode_utf8_decode_utf8(a@);
        encode_utf8_decode_utf8(b@);
    }
    if left.len() != right.len() {
        return false;
    }
    let mut i: usize = 0;
    while i < left.len()
        invariant
            i <= left.len(),
            left.len() == right.len(),
            left@ == encode_utf8(a@),
            right@ == encode_utf8(b@),
            decode_utf8(encode_utf8(a@)) == a@,
            decode_utf8(encode_utf8(b@)) == b@,
            forall|j: int| 0 <= j < i ==> left@[j] == right@[j],
        decreases left.len() - i,
    {
        if left[i] != right[i] {
            return false;
        }
        i += 1;
    }
    assert(left@ =~= right@);
    true
}

impl SharedString {
    /// The text as a string slice.
    pub fn as_str(&self) -> (r: &str)
        ensures
            r@ == self@,
    {
        match self {
            SharedString::Borrowed(s) => s,
            SharedString::Owned(s) => s.as_str(),
        }
    }

    /// Whether both handles stand for the same text.
    pub fn same_as(&self, other: &SharedString) -> (r: bool)
        ensures
            r == (self@ == other@),
    {
        same_text(self.as_str(), other.as_str())
    }
}

impl PartialEq for SharedString {
    fn eq(&self, other: &SharedString) -> (r: bool) {
        self.same_as(other)
    }
}

impl PartialEqSpecImpl for SharedString {
    open spec fn obeys_eq_spec() -> bool {
        true
    }

    open spec fn eq_spec(&self, other: &SharedString) -> bool {
        self@ == other@
    }
}

impl Eq for SharedString {

}

impl Clone for SharedString {
    fn clone(&self) -> (r: SharedString)
        ensures
            r == *self,
    {
        match self {
            SharedString::Borrowed(s) => SharedString::Borrowed(s),
            SharedString::Owned(s) => SharedString::Owned(share(s)),
        }
    }
}

impl From<&'static str> for SharedString {
    fn from(s: &'static str) -> (r: SharedString) {
        SharedString::Borrowed(s)
    }
}

impl FromSpecImpl<&'static str> for SharedString {
    open spec fn obeys_from_spec() -> bool {
        true
    }

    open spec fn from_spec(s: &'static str) -> SharedString {
        SharedString::Borrowed(s)
    }
}

impl From<String> for SharedString {
    fn from(s: String) -> (r: SharedString) {
        SharedString::Owned(Arc::new(s))
    }
}

impl FromSpecImpl<String> for SharedString {
    open spec fn obeys_from_spec() -> bool {
        true
    }

    open spec fn from_spec(s: String) -> SharedString {
        SharedString::Owned(Arc::new(s))
    }
}

} // verus!
