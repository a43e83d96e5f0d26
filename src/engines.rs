//! The two digest engines: the accelerated CRC-64/NVME digest of
//! `crc64fast_nvme`, and the table-driven digest of `crc` built from a
//! parameter record. Each is modelled by the bytes it has been fed.
use crate::params::CrcParams;
use vstd::prelude::*;

verus! {

#[verifier::external_type_specification]
#[verifier::external_body]
pub struct ExNvmeDigest(crc64fast_nvme::Digest);

/// The bytes written so far into an accelerated digest, in order.
pub uninterp spec fn accelerated_fed(d: crc64fast_nvme::Digest) -> Seq<u8>;

/// The CRC-64/NVME value that the accelerated digest reports for `bytes`.
pub uninterp spec fn nvme_sum(bytes: Seq<u8>) -> u64;

/// Relies on crc64fast_nvme::Digest::new: a fresh digest has been fed nothing.
pub assume_specification[ crc64fast_nvme::Digest::new ]() -> (d: crc64fast_nvme::Digest)
    ensures
        accelerated_fed(d) == Seq::<u8>::empty(),
;

/// Relies on crc64fast_nvme::Digest::write: the state folds in `bytes` after
/// everything written before.
pub assume_specification[ crc64fast_nvme::Digest::write ](
    d: &mut crc64fast_nvme::Digest,
    bytes: &[u8],
)
    ensures
        accelerated_fed(*final(d)) == accelerated_fed(*old(d)) + bytes@,
;

/// Relies on crc64fast_nvme::Digest::sum64: the value depends on the bytes
/// written alone.
pub assume_specification[ crc64fast_nvme::Digest::sum64 ](d: &crc64fast_nvme::Digest) -> (r: u64)
    ensures
        r == nvme_sum(accelerated_fed(*d)),
;

/// A table-driven digest of the `crc` crate, for the parameters it was made
/// with. `crc`'s own types cannot be declared (their bounds are traits of
/// that crate), so the digest is held here, out of the verifier's sight.
#[verifier::external_body]
pub struct ReferenceDigest {
    digest: crc::Digest<'static, u64>,
}

/// The bytes fed so far into a reference digest, in order.
pub uninterp spec fn reference_fed(d: ReferenceDigest) -> Seq<u8>;

/// The parameters a reference digest was made with.
pub uninterp spec fn reference_params(d: ReferenceDigest) -> CrcParams;

/// The checksum that `crc` computes for `bytes` under the parameters `p`.
pub uninterp spec fn rocksoft_crc(p: CrcParams, bytes: Seq<u8>) -> u64;

impl ReferenceDigest {
    /// Relies on crc::Crc::<u64>::new and crc::Crc::digest: a digest for the
    /// given parameters that has been fed nothing. `crc` keeps a `'static`
    /// borrow of the parameters and the digest one of its table, so both are
    /// leaked: one small allocation of each per digest.
    #[verifier::external_body]
    pub fn new(p: &CrcParams) -> (d: ReferenceDigest)
        requires
            1 <= p.width <= 64,
        ensures
            reference_fed(d) == Seq::<u8>::empty(),
            reference_params(d) == *p,
    {
        let algorithm: &'static crc::Algorithm<u64> = Box::leak(Box::new(crc::Algorithm {
            width: p.width,
            poly: p.poly,
            init: p.init,
            refin: p.refin,
            refout: p.refout,
            xorout: p.xorout,
            check: p.check,
            residue: p.residue,
        }));
        let table: &'static crc::Crc<u64> = Box::leak(Box::new(crc::Crc::<u64>::new(algorithm)));
        ReferenceDigest { digest: table.digest() }
    }

    /// Relies on crc::Digest::update: the register folds in `bytes` after
    /// everything fed before.
    #[verifier::external_body]
    pub fn update(&mut self, bytes: &[u8])
        ensures
            reference_fed(*final(self)) == reference_fed(*old(self)) + bytes@,
            reference_params(*final(self)) == reference_params(*old(self)),
    {
        self.digest.update(bytes)
    }

    /// Relies on crc::Digest::finalize: the checksum depends on the parameters
    /// and the bytes fed alone.
    #[verifier::external_body]
    pub fn finalize(self) -> (r: u64)
        ensures
            r == rocksoft_crc(reference_params(self), reference_fed(self)),
    {
        self.digest.finalize()
    }
}

} // verus!
