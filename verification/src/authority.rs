use vstd::prelude::*;

verus! {

/// The fixed offset appended to the seed when the program authority's
/// signature is re-derived; chosen once at deployment to avoid a collision
/// with an existing derived address.
pub const AUTHORITY_BUMP: u8 = 254;

/// The fixed seed string from which the program authority is derived:
/// the bytes of `divvyexchange`.
pub open spec fn spec_authority_seed() -> Seq<u8> {
    seq![100, 105, 118, 118, 121, 101, 120, 99, 104, 97, 110, 103, 101]
}

/// Returns the exact seed-plus-offset pair that re-derives a valid signature
/// for the program authority. Pure and constant: the authority is never
/// stored, it is recomputed identically on every invocation.
pub fn authority() -> (r: (Vec<u8>, u8))
    ensures
        r.0@ == spec_authority_seed(),
        r.1 == AUTHORITY_BUMP,
{
    let seed: Vec<u8> = vec![100, 105, 118, 118, 121, 101, 120, 99, 104, 97, 110, 103, 101];
    proof {
        assert(seed@ =~= spec_authority_seed());
    }
    (seed, AUTHORITY_BUMP)
}

} // verus!
