//! One digest chosen per computation, and the protocol that feeds it a byte
//! source segment by segment.
use crate::engines::{
    accelerated_fed, nvme_sum, reference_fed, reference_params, rocksoft_crc, ReferenceDigest,
};
use crate::params::{spec_nvme, CrcParams};
use vstd::prelude::*;

verus! {

/// Which digest computes the checksum.
#[derive(Clone, Copy, Debug, PartialEq, Eq, Structural)]
pub enum Strategy {
    /// The carryless-multiplication digest: the default.
    Accelerated,
    /// The table-driven digest, built from the CRC-64/NVME parameters.
    Reference,
}

/// The checksum that a strategy gives for `bytes`.
pub open spec fn checksum_of(s: Strategy, bytes: Seq<u8>) -> u64 {
    match s {
        Strategy::Accelerated => nvme_sum(bytes),
        Strategy::Reference => rocksoft_crc(spec_nvme(), bytes),
    }
}

/// A digest of either strategy.
pub enum Checksummer {
    Accelerated(crc64fast_nvme::Digest),
    Reference(ReferenceDigest),
}

impl Checksummer {
    pub open spec fn strategy(&self) -> Strategy {
        match self {
            Checksummer::Accelerated(_) => Strategy::Accelerated,
            Checksummer::Reference(_) => Strategy::Reference,
        }
    }

    /// The bytes fed so far.
    pub open spec fn fed(&self) -> Seq<u8> {
        match self {
            Checksummer::Accelerated(d) => accelerated_fed(*d),
            Checksummer::Reference(d) => reference_fed(*d),
        }
    }

    /// A reference digest runs on the CRC-64/NVME parameters.
    pub open spec fn wf(&self) -> bool {
        match self {
            Checksummer::Accelerated(_) => true,
            Checksummer::Reference(d) => reference_params(*d) == spec_nvme(),
        }
    }

    pub fn new(s: Strategy) -> (c: Checksummer)
        ensures
            c.wf(),
            c.strategy() == s,
            c.fed() == Seq::<u8>::empty(),
    {
        match s {
            Strategy::Accelerated => Checksummer::Accelerated(crc64fast_nvme::Digest::new()),
            Strategy::Reference => {
                let p = CrcParams::nvme();
                Checksummer::Reference(ReferenceDigest::new(&p))
            },
        }
    }

    pub fn update(&mut self, bytes: &[u8])
        requires
            old(self).wf(),
        ensures
            final(self).wf(),
            final(self).strategy() == old(self).strategy(),
            final(self).fed() == old(self).fed() + bytes@,
    {
        match self {
            Checksummer::Accelerated(d) => d.write(bytes),
            Checksummer::Reference(d) => d.update(bytes),
        }
    }

    pub fn finalize(self) -> (r: u64)
        requires
            self.wf(),
        ensures
            r == checksum_of(self.strategy(), self.fed()),
    {
        match self {
            Checksummer::Accelerated(d) => d.sum64(),
            Checksummer::Reference(d) => d.finalize(),
        }
    }
}

/// Where a computation over a byte source stands.
#[derive(Clone, Copy, Debug, PartialEq, Eq, Structural)]
pub enum Phase {
    /// Nothing read yet.
    Idle,
    /// At least one segment read, and the source not yet exhausted.
    Reading,
    /// The source is exhausted and the checksum was handed out.
    Finalized,
}

/// Drives one digest over a byte source read in segments: each non-empty
/// segment is fed in order; an empty read ends the source and yields the
/// checksum.
pub struct StreamConsumer {
    phase: Phase,
    strategy: Strategy,
    digest: Option<Checksummer>,
}

impl StreamConsumer {
    pub closed spec fn phase(&self) -> Phase {
        self.phase
    }

    pub closed spec fn strategy(&self) -> Strategy {
        self.strategy
    }

    /// The bytes fed so far; empty once finalized.
    pub closed spec fn fed(&self) -> Seq<u8> {
        match self.digest {
            Some(c) => c.fed(),
            None => Seq::empty(),
        }
    }

    pub closed spec fn wf(&self) -> bool {
        match self.digest {
            Some(c) => c.wf() && c.strategy() == self.strategy && self.phase != Phase::Finalized,
            None => self.phase == Phase::Finalized,
        }
    }

    pub fn new(s: Strategy) -> (c: StreamConsumer)
        ensures
            c.wf(),
            c.phase() == Phase::Idle,
            c.strategy() == s,
            c.fed() == Seq::<u8>::empty(),
    {
        StreamConsumer { phase: Phase::Idle, strategy: s, digest: Some(Checksummer::new(s)) }
    }

    /// The largest segment to read at once; any positive size gives the same
    /// checksum.
    pub fn segment_capacity(&self) -> (n: usize)
        ensures
            n == crate::params::SEGMENT_BYTES,
            n > 0,
    {
        crate::params::SEGMENT_BYTES
    }

    /// Takes the outcome of one read: the bytes read, empty at the end of the
    /// source. Returns the checksum at the end of the source, `None` while
    /// more is to be read.
    pub fn on_read(&mut self, segment: &[u8]) -> (out: Option<u64>)
        requires
            old(self).wf(),
            old(self).phase() != Phase::Finalized,
        ensures
            final(self).wf(),
            final(self).strategy() == old(self).strategy(),
            segment@.len() == 0 ==> {
                &&& out == Some(checksum_of(old(self).strategy(), old(self).fed()))
                &&& final(self).phase() == Phase::Finalized
            },
            segment@.len() > 0 ==> {
                &&& out.is_none()
                &&& final(self).phase() == Phase::Reading
                &&& final(self).fed() == old(self).fed() + segment@
            },
    {
        if segment.len() == 0 {
            let digest = self.digest.take();
            self.phase = Phase::Finalized;
            match digest {
                Some(c) => Some(c.finalize()),
                None => None,
            }
        } else {
            let mut digest = self.digest.take();
            match &mut digest {
                Some(c) => c.update(segment),
                None => {},
            }
            self.digest = digest;
            self.phase = Phase::Reading;
            None
        }
    }

    /// Takes a failed read: the bytes fed so far are discarded and no
    /// checksum is given.
    pub fn on_read_failure(&mut self)
        requires
            old(self).wf(),
        ensures
            final(self).wf(),
            final(self).strategy() == old(self).strategy(),
            final(self).phase() == Phase::Finalized,
    {
        self.digest = None;
        self.phase = Phase::Finalized;
    }
}

} // verus!
