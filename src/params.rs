use vstd::prelude::*;

verus! {

/// Largest segment that a stream consumer reads at once: 100 MiB.
pub const SEGMENT_BYTES: usize = 104857600;

/// The parameters of a CRC in the Rocksoft model.
#[derive(Clone, Copy, Debug, PartialEq, Eq, Structural)]
pub struct CrcParams {
    pub width: u8,
    pub poly: u64,
    pub init: u64,
    pub refin: bool,
    pub refout: bool,
    pub xorout: u64,
    pub check: u64,
    pub residue: u64,
}

/// The CRC-64/NVME parameters as plain values.
pub open spec fn spec_nvme() -> CrcParams {
    CrcParams {
        width: 64,
        poly: 0xAD93D23594C93659,
        init: 0xFFFFFFFFFFFFFFFF,
        refin: true,
        refout: true,
        xorout: 0xFFFFFFFFFFFFFFFF,
        check: 0xae8b14860a799888,
        residue: 0,
    }
}

impl CrcParams {
    /// The CRC-64/NVME variant; `check` is the checksum of "123456789".
    pub fn nvme() -> (p: CrcParams)
        ensures
            p == spec_nvme(),
    {
        CrcParams {
            width: 64,
            poly: 0xAD93D23594C93659,
            init: 0xFFFFFFFFFFFFFFFF,
            refin: true,
            refout: true,
            xorout: 0xFFFFFFFFFFFFFFFF,
            check: 0xae8b14860a799888,
            residue: 0,
        }
    }
}

} // verus!
