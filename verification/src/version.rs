//! Decomposition of the packed 32-bit version number reported by the native
//! driver and library.

use vstd::prelude::*;

verus! {

/// A D3XX driver or library version number, decomposed from the packed
/// 32-bit value `0xMMmmSSBB` (major, minor, svn, build).
#[derive(Debug, Clone, Copy, PartialEq, Eq, Structural)]
pub struct Version {
    major: u8,
    minor: u8,
    svn: u8,
    build: u8,
}

impl Version {
    /// Major version number: bits 24-31 of the packed value.
    pub closed spec fn spec_major(self) -> u8 {
        self.major
    }

    /// Minor version number: bits 16-23 of the packed value.
    pub closed spec fn spec_minor(self) -> u8 {
        self.minor
    }

    /// Subversion number: bits 8-15 of the packed value.
    pub closed spec fn spec_svn(self) -> u8 {
        self.svn
    }

    /// Build number: bits 0-7 of the packed value.
    pub closed spec fn spec_build(self) -> u8 {
        self.build
    }

    /// Decompose a packed 32-bit version number into its four byte fields.
    /// No validation is applied: every 32-bit value is a version.
    pub fn new(version: u32) -> (v: Version)
        ensures
            v.spec_major() == (version >> 24) & 0xFF,
            v.spec_minor() == (version >> 16) & 0xFF,
            v.spec_svn() == (version >> 8) & 0xFF,
            v.spec_build() == version & 0xFF,
    {
        let v = Version {
            major: ((version >> 24) & 0xFF) as u8,
            minor: ((version >> 16) & 0xFF) as u8,
            svn: ((version >> 8) & 0xFF) as u8,
            build: (version & 0xFF) as u8,
        };
        proof {
            assert((version >> 24) & 0xFF <= 0xFF && (version >> 16) & 0xFF <= 0xFF
                && (version >> 8) & 0xFF <= 0xFF && version & 0xFF <= 0xFF) by (bit_vector);
        }
        v
    }

    /// Major version number.
    pub fn major(&self) -> (r: u8)
        ensures
            r == self.spec_major(),
    {
        self.major
    }

    /// Minor version number.
    pub fn minor(&self) -> (r: u8)
        ensures
            r == self.spec_minor(),
    {
        self.minor
    }

    /// Subversion number.
    pub fn svn(&self) -> (r: u8)
        ensures
            r == self.spec_svn(),
    {
        self.svn
    }

    /// Build number.
    pub fn build(&self) -> (r: u8)
        ensures
            r == self.spec_build(),
    {
        self.build
    }
}

} // verus!
