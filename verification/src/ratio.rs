//! The persisted eligibility-ratio parameter and its governance surface.
//!
//! The ratio is a percentage in `0 ..= 100` of the candidate-author set that
//! is eligible to author during a rotation window. It is mutated only through
//! [`RatioStore::set_ratio`], which demands the privileged origin.

use vstd::prelude::*;

verus! {

/// Caller identity for the governance entry point, mirroring a runtime
/// dispatch origin: either the privileged root origin or an ordinary signed
/// account.
#[derive(Clone, Copy, PartialEq, Eq, Structural, Debug)]
pub enum Origin {
    Root,
    Signed(u64),
}

/// Errors of the governance surface around the eligibility ratio.
#[derive(Clone, Copy, PartialEq, Eq, Structural, Debug)]
pub enum RatioError {
    /// The caller is not the privileged origin.
    PermissionDenied,
    /// The proposed ratio lies outside `0 ..= 100`.
    InvalidRatio,
}

/// Persisted governance-controlled percentage of candidate authors that are
/// eligible per rotation window.
pub struct RatioStore {
    ratio: u8,
}

impl RatioStore {
    /// The stored percentage.
    pub closed spec fn spec_ratio(&self) -> u8 {
        self.ratio
    }

    /// The store only ever holds a percentage in `0 ..= 100`.
    pub closed spec fn wf(&self) -> bool {
        self.ratio <= 100
    }

    /// A fresh store holding the default ratio of one half.
    pub fn new() -> (s: Self)
        ensures
            s.wf(),
            s.spec_ratio() == 50u8,
    {
        RatioStore { ratio: 50 }
    }

    /// Genesis seeding from a configured percentage; saturates at 100 so the
    /// stored value is always a valid percentage.
    pub fn from_genesis(percent: u8) -> (s: Self)
        ensures
            s.wf(),
            s.spec_ratio() == (if percent > 100 { 100u8 } else { percent }),
    {
        RatioStore { ratio: if percent > 100 { 100 } else { percent } }
    }

    /// A pure read of the stored ratio.
    pub fn get_ratio(&self) -> (r: u8)
        requires
            self.wf(),
        ensures
            r == self.spec_ratio(),
            r <= 100,
    {
        self.ratio
    }

    /// The single governance entry point. Only the root origin may update the
    /// ratio, and only to a value in `0 ..= 100`; every failure leaves the
    /// stored ratio unchanged.
    pub fn set_ratio(&mut self, new: u8, origin: Origin) -> (r: Result<(), RatioError>)
        requires
            old(self).wf(),
        ensures
            final(self).wf(),
            match origin {
                Origin::Root => if new <= 100 {
                    r == Ok::<(), RatioError>(()) && final(self).spec_ratio() == new
                } else {
                    r == Err::<(), RatioError>(RatioError::InvalidRatio)
                        && final(self).spec_ratio() == old(self).spec_ratio()
                },
                Origin::Signed(_) => r == Err::<(), RatioError>(RatioError::PermissionDenied)
                    && final(self).spec_ratio() == old(self).spec_ratio(),
            },
    {
        match origin {
            Origin::Root => {
                if new <= 100 {
                    self.ratio = new;
                    Ok(())
                } else {
                    Err(RatioError::InvalidRatio)
                }
            }
            Origin::Signed(_) => Err(RatioError::PermissionDenied),
        }
    }
}

} // verus!
