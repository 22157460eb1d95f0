//! Driver API identity and version numbers, with the ordering test used by
//! capability checks.

use vstd::prelude::*;

verus! {

/// The flavour of the driver API.
#[derive(Copy, Clone, PartialEq, Eq, Structural, Debug)]
pub enum Api {
    /// Desktop API.
    Gl,
    /// Embedded API.
    GlEs,
}

/// A driver version: an API flavour plus a major and minor number.
///
/// Versions of different API flavours are incomparable: a capability check
/// against a version of the other flavour is simply false.
#[derive(Copy, Clone, PartialEq, Eq, Structural, Debug)]
pub struct Version {
    pub api: Api,
    pub major: u32,
    pub minor: u32,
}

impl Version {
    /// `self` is of flavour `api` and at least `major.minor`.
    pub open spec fn spec_at_least(self, api: Api, major: u32, minor: u32) -> bool {
        self.api == api && (self.major > major || (self.major == major && self.minor >= minor))
    }

    /// Compares this version against a required `api` / `major.minor`.
    pub fn at_least(&self, api: Api, major: u32, minor: u32) -> (r: bool)
        ensures
            r == self.spec_at_least(api, major, minor),
    {
        self.api == api && (self.major > major || (self.major == major && self.minor >= minor))
    }
}

} // verus!


