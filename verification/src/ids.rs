//! Fresh identifiers.

use vstd::prelude::*;

verus! {

/// `c` is a decimal digit or one of the letters `a` to `f`.
pub open spec fn is_lower_hex(c: char) -> bool {
    '0' <= c <= '9' || 'a' <= c <= 'f'
}

/// `id` has the hyphenated form of a random UUID: 36 characters, hyphens at
/// four fixed places, lower-case hexadecimal digits elsewhere, and the
/// version digit 4.
pub open spec fn is_random_uuid_text(id: Seq<char>) -> bool {
    &&& id.len() == 36
    &&& forall|i: int|
        0 <= i < 36 ==> if i == 8 || i == 13 || i == 18 || i == 23 {
            id[i] == '-'
        } else {
            is_lower_hex(#[trigger] id[i])
        }
    &&& id[14] == '4'
}

/// A source of fresh identifiers.
#[derive(Debug, Default, Clone, Copy)]
pub struct IdGenerator;

impl IdGenerator {
    /// A fresh random identifier.
    ///
    /// Calls `uuid::Uuid::new_v4` and writes the result with its `Display`,
    /// which is the hyphenated lower-case form. The contract claims that
    /// form and the version digit that `new_v4` sets; the other digits are
    /// random and nothing is claimed of them.
    #[verifier::external_body]
    pub fn get(&self) -> (id: String)
        ensures
            is_random_uuid_text(id@),
    {
        uuid::Uuid::new_v4().to_string()
    }
}

} // verus!
