//! Fresh identifiers for reports and snapshots.

use ulid::Ulid;
use vstd::prelude::*;

verus! {

/// Number of characters of an identifier in its text form.
pub const ID_LEN: usize = 26;

/// `ulid::Ulid`, carried as an opaque value: nothing is read from it but
/// its text form.
#[verifier::external_type_specification]
#[verifier::external_body]
pub struct ExUlid(Ulid);

/// `Ulid::new` draws an identifier from the clock and a random source, so
/// nothing is claimed of the value it returns.
pub assume_specification[ Ulid::new ]() -> (id: Ulid);

/// `Ulid::to_string` writes the 128 bits of the identifier as Crockford
/// Base32 text, five bits to a character, which always takes `ID_LEN`
/// characters.
pub assume_specification[ Ulid::to_string ](id: &Ulid) -> (text: String)
    ensures
        text@.len() == ID_LEN,
;

/// A fresh identifier in text form.
pub fn fresh_id() -> (id: String)
    ensures
        id@.len() == ID_LEN,
{
    Ulid::new().to_string()
}

} // verus!
