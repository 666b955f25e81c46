//! The ASM spec of the Strata protocol.

use vstd::prelude::*;

verus! {

/// The magic bytes that tag the transactions of the Strata protocol: "ALPN".
pub open spec fn spec_magic_bytes() -> Seq<u8> {
    seq![0x41u8, 0x4cu8, 0x50u8, 0x4eu8]
}

/// ASM spec for the Strata protocol.
#[derive(Debug)]
pub struct StrataAsmSpec;

impl StrataAsmSpec {
    /// The magic bytes of the protocol's transaction tags.
    pub fn magic_bytes(&self) -> (r: [u8; 4])
        ensures
            r@ == spec_magic_bytes(),
    {
        let r: [u8; 4] = [0x41, 0x4c, 0x50, 0x4e];
        assert(r@ =~= spec_magic_bytes());
        r
    }
}

/// The state transition program that runs the Strata ASM spec.
#[derive(Debug)]
pub struct AsmStfProgram;

} // verus!
