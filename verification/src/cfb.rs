//! The header of a compound file (the container format of an installer
//! package): its signature, and the reserved field that follows it.

use vstd::prelude::*;

verus! {

/// The length of the signature that opens a compound file.
pub const SIGNATURE_LENGTH: usize = 8;

/// The length of the reserved field that follows the signature.
pub const RESERVED_FIELD_LENGTH: usize = 16;

/// The eight bytes that open every compound file.
pub open spec fn cfb_signature() -> Seq<u8> {
    seq![0xD0u8, 0xCFu8, 0x11u8, 0xE0u8, 0xA1u8, 0xB1u8, 0x1Au8, 0xE1u8]
}

/// Whether `header`, the first bytes read from a file, is the signature of a
/// compound file.
pub fn is_cfb_signature(header: &[u8]) -> (r: bool)
    ensures
        r == (header@ == cfb_signature()),
{
    if header.len() != SIGNATURE_LENGTH {
        proof {
            assert(header@.len() != cfb_signature().len());
        }
        return false;
    }
    let r = header[0] == 0xD0 && header[1] == 0xCF && header[2] == 0x11 && header[3] == 0xE0
        && header[4] == 0xA1 && header[5] == 0xB1 && header[6] == 0x1A && header[7] == 0xE1;
    proof {
        if r {
            assert(header@ =~= cfb_signature());
        } else {
            if header@ == cfb_signature() {
                assert(header@[0] == cfb_signature()[0]);
            }
        }
    }
    r
}

} // verus!
