//! Public identifiers: 16-character nano ids over the letters and digits.
//!
//! Apps, users, sessions and messages are all named by such an id. The
//! storage layer keeps them packed into 12 bytes; here they are held as text,
//! and two ids are the same id exactly when their text is the same.

use vstd::prelude::*;
use crate::text::chars_of;

verus! {

/// Whether a character belongs to the alphabet of the ids: `A-Za-z0-9`.
pub open spec fn is_base62(c: char) -> bool {
    ||| ('A' <= c && c <= 'Z')
    ||| ('a' <= c && c <= 'z')
    ||| ('0' <= c && c <= '9')
}

/// Whether a text is an id: exactly 16 characters of the alphabet.
pub open spec fn valid_nano_id(s: Seq<char>) -> bool {
    s.len() == 16 && forall|i: int| 0 <= i < s.len() ==> is_base62(s[i])
}

/// A 16-character id.
pub struct NanoId {
    text: String,
}

impl NanoId {
    #[verifier::type_invariant]
    spec fn well_formed(self) -> bool {
        valid_nano_id(self.text@)
    }

    /// Every id is 16 letters and digits.
    pub fn check_valid(&self)
        ensures
            valid_nano_id(self@),
    {
        proof {
            use_type_invariant(self);
        }
    }
}

impl View for NanoId {
    type V = Seq<char>;

    closed spec fn view(&self) -> Seq<char> {
        self.text@
    }
}

impl Clone for NanoId {
    fn clone(&self) -> (r: Self)
        ensures
            r@ == self@,
    {
        proof {
            use_type_invariant(self);
        }
        NanoId { text: self.text.clone() }
    }
}

fn base62(c: char) -> (r: bool)
    ensures
        r == is_base62(c),
{
    ('A' <= c && c <= 'Z') || ('a' <= c && c <= 'z') || ('0' <= c && c <= '9')
}

impl NanoId {
    /// The id written as `s`, when `s` is exactly 16 letters and digits.
    pub fn parse(s: &str) -> (r: Option<NanoId>)
        ensures
            r is Some <==> valid_nano_id(s@),
            r matches Some(id) ==> id@ == s@,
    {
        let chars = chars_of(s);
        if chars.len() != 16 {
            return None;
        }
        let mut i: usize = 0;
        while i < chars.len()
            invariant
                chars@ == s@,
                chars@.len() == 16,
                i <= 16,
                forall|k: int| 0 <= k < i ==> is_base62(chars@[k]),
            decreases 16 - i,
        {
            if !base62(chars[i]) {
                return None;
            }
            i = i + 1;
        }
        let text = s.to_owned();
        assert(valid_nano_id(text@));
        Some(NanoId { text })
    }

    /// The text of the id.
    pub fn as_str(&self) -> (r: &str)
        ensures
            r@ == self@,
    {
        self.text.as_str()
    }

    /// Whether two ids are the same id.
    pub fn same(&self, other: &NanoId) -> (r: bool)
        ensures
            r == (self@ == other@),
    {
        self.text == other.text
    }
}

/// Whether an optional id is present and the same as `id`.
pub fn is_same_id(o: &Option<NanoId>, id: &NanoId) -> (r: bool)
    ensures
        r == (o matches Some(x) && x@ == id@),
{
    match o {
        Some(x) => x.same(id),
        None => false,
    }
}

/// The `Debug` text of an id packed into its 12-byte storage form, as the
/// storage layer's `PackedNanoid` writes it.
pub uninterp spec fn packed_debug(id: Seq<char>) -> Seq<char>;

/// Packs the id with `PackedNanoid::pack` and writes the packed form with its
/// `Debug` impl. The result is named `packed_debug`; the bit packing and the
/// byte list notation are not written out.
#[verifier::external_body]
pub(crate) fn packed_debug_text(id: &NanoId) -> (r: String)
    requires
        valid_nano_id(id@),
    ensures
        r@ == packed_debug(id@),
{
    let n: psc_nanoid::Nanoid<16, psc_nanoid::alphabet::Base62Alphabet> =
        psc_nanoid::Nanoid::try_from_str(id.as_str()).unwrap();
    let p: psc_nanoid::PackedNanoid<16, 12, psc_nanoid::alphabet::Base62Alphabet> =
        psc_nanoid::PackedNanoid::pack(&n).unwrap();
    format!("{:?}", p)
}

} // verus!
