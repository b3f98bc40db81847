//! Build-time errors.
//!
//! Every error in this crate is fatal to the generation run: a half-generated
//! artifact is worse than a failed build, so callers abort on the first error.

use vstd::prelude::*;

verus! {

/// A fatal error raised while building the declarative description or while
/// emitting the generated sources.
#[derive(Clone, Copy, Debug, PartialEq, Eq, Structural)]
pub enum GenError {
    /// Two distinct types resolved to the same encoded number.
    NumberingCollision { number: u8 },
    /// A vector lane count that is not a power of two in `[2, 256]`.
    InvalidLaneCount { lanes: u64 },
    /// A setting was added to a group whose byte layout is already frozen.
    GroupAlreadyClosed,
    /// A predicate or accessor referred to a setting that does not exist.
    UnknownSettingReference,
    /// Two settings in one group share a name.
    DuplicateSettingName,
    /// The generated text could not be read or written.
    IoFailure,
}

impl GenError {
    /// A short diagnostic label for the error, for build logs.
    pub fn describe(&self) -> (r: &'static str)
        ensures
            r@ == self.spec_describe(),
    {
        match self {
            GenError::NumberingCollision { .. } => "numbering collision",
            GenError::InvalidLaneCount { .. } => "invalid lane count",
            GenError::GroupAlreadyClosed => "setting group already closed",
            GenError::UnknownSettingReference => "unknown setting reference",
            GenError::DuplicateSettingName => "duplicate setting name",
            GenError::IoFailure => "i/o failure",
        }
    }

    /// The label `describe` returns for each variant.
    pub open spec fn spec_describe(self) -> Seq<char> {
        match self {
            GenError::NumberingCollision { .. } => "numbering collision"@,
            GenError::InvalidLaneCount { .. } => "invalid lane count"@,
            GenError::GroupAlreadyClosed => "setting group already closed"@,
            GenError::UnknownSettingReference => "unknown setting reference"@,
            GenError::DuplicateSettingName => "duplicate setting name"@,
            GenError::IoFailure => "i/o failure"@,
        }
    }
}

} // verus!
