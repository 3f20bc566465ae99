//! The fully-unlocked save files, one for each release. Their bytes are
//! written as they are and never read.

use crate::enums::IsaacVersion;
use vstd::prelude::*;

verus! {

/// The fully-unlocked save file of each release.
#[derive(Debug, PartialEq, Eq)]
pub struct SaveFiles {
    pub rebirth: Vec<u8>,
    pub afterbirth: Vec<u8>,
    pub afterbirth_plus: Vec<u8>,
    pub afterbirth_plus_bp5: Vec<u8>,
    pub repentance: Vec<u8>,
}

impl SaveFiles {
    /// The bytes of the save file of a release.
    pub open spec fn bytes(&self, isaac_version: IsaacVersion) -> Seq<u8> {
        match isaac_version {
            IsaacVersion::Rebirth => self.rebirth@,
            IsaacVersion::Afterbirth => self.afterbirth@,
            IsaacVersion::AfterbirthPlus => self.afterbirth_plus@,
            IsaacVersion::AfterbirthPlusBP5 => self.afterbirth_plus_bp5@,
            IsaacVersion::Repentance => self.repentance@,
        }
    }
}

} // verus!
