//! The admin key that marks requests from the platform's own servers.

use vstd::prelude::*;

verus! {

/// The request header that carries the admin key.
pub const ADMIN_KEY_HEADER: &'static str = "Modrinth-Admin";

/// Whether the presented header value is, byte for byte, the admin key; a missing
/// header is no match.
pub fn admin_key_matches(presented: Option<&[u8]>, admin_key: &[u8]) -> (r: bool)
    ensures
        r == (presented is Some && presented->Some_0@ == admin_key@),
{
    match presented {
        None => false,
        Some(p) => {
            if p.len() != admin_key.len() {
                return false;
            }
            let mut i: usize = 0;
            while i < p.len()
                invariant
                    i <= p@.len(),
                    presented == Some(p),
                    p@.len() == admin_key@.len(),
                    forall|j: int| 0 <= j < i ==> p@[j] == admin_key@[j],
                decreases p@.len() - i,
            {
                if p[i] != admin_key[i] {
                    assert(p@[i as int] != admin_key@[i as int]);
                    return false;
                }
                i = i + 1;
            }
            assert(p@ =~= admin_key@);
            true
        },
    }
}

} // verus!
