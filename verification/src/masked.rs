//! Strings that are shown masked, such as a password being typed.
use vstd::prelude::*;
use vstd::string::*;

use zeroize::Zeroize;

verus! {

/// Overwrites the bytes of `s` with zeros in place and empties it, with the
/// `zeroize` crate's `Zeroize` implementation for `String` (which zeroes the
/// whole buffer, then clears the string). The contract claims that the
/// string is empty afterwards; that the memory was overwritten is not
/// stated.
#[verifier::external_body]
fn zeroize_string(s: &mut String)
    ensures
        final(s)@ == Seq::<char>::empty(),
{
    s.zeroize();
}

/// String that can be masked for display (e.g. password fields).
#[derive(Debug, Default)]
pub struct MaskedString {
    /// Actual value.
    pub value: String,
    /// Optional masked display value (e.g. "****").
    pub mask: Option<String>,
}

/// The text shown for a masked string: the mask when there is one,
/// otherwise the value.
pub open spec fn shown(m: MaskedString) -> Seq<char> {
    match m.mask {
        Some(mask) => mask@,
        None => m.value@,
    }
}

impl MaskedString {
    /// Creates a masked string.
    pub fn from(value: String, mask: Option<String>) -> (r: Self)
        ensures
            r.value == value,
            r.mask == mask,
    {
        MaskedString { value, mask }
    }

    /// The display value: the mask if present, otherwise the actual value.
    pub fn get(&self) -> (r: &str)
        ensures
            r@ == shown(*self),
    {
        match &self.mask {
            Some(mask) => mask.as_str(),
            None => self.value.as_str(),
        }
    }

    /// Erases both the value and the mask.
    pub fn zeroize(&mut self)
        ensures
            final(self).value@ == Seq::<char>::empty(),
            final(self).mask is None,
    {
        zeroize_string(&mut self.value);
        if let Some(mask) = &mut self.mask {
            zeroize_string(mask);
        }
        self.mask = None;
    }
}

/// Once erased, a masked string shows nothing: neither its value nor its
/// former mask.
pub proof fn lemma_erased_shows_nothing(m: MaskedString)
    requires
        m.value@ == Seq::<char>::empty(),
        m.mask is None,
    ensures
        shown(m) == Seq::<char>::empty(),
{
}

} // verus!
