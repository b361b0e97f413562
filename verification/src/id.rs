//! Identifiers of new nodes.
use vstd::prelude::*;

verus! {

/// A character of Crockford's base 32 alphabet, as ULIDs are written.
pub open spec fn is_crockford(c: char) -> bool {
    let v = c as u32;
    ||| 48 <= v <= 57
    ||| 65 <= v <= 72
    ||| v == 74 || v == 75 || v == 77 || v == 78
    ||| 80 <= v <= 84
    ||| 86 <= v <= 90
}

/// A new ULID (`ulid::Ulid::new().to_string()`): 26 characters of Crockford's
/// base 32. Which identifier comes back depends on the clock and on chance.
#[verifier::external_body]
pub fn generate() -> (r: String)
    ensures
        r@.len() == 26,
        forall|i: int| 0 <= i < 26 ==> is_crockford(#[trigger] r@[i]),
{
    ulid::Ulid::new().to_string()
}

} // verus!
