use vstd::prelude::*;

verus! {

/// The tag that, after the sale's id, seeds the custody authority's address.
pub const AUTHORITY_SEED: [u8; 9] = [97, 117, 116, 104, 111, 114, 105, 116, 121];

/// The bytes of `AUTHORITY_SEED`, the word "authority" in ASCII.
pub open spec fn authority_tag() -> Seq<u8> {
    seq![97u8, 117u8, 116u8, 104u8, 111u8, 114u8, 105u8, 116u8, 121u8]
}

} // verus!
