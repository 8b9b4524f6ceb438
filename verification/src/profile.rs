//! Rule configurations: the library's own `TransformProfile` and the
//! fixed-layout mirror `AstraProfile` handed across the call boundary.

use vstd::prelude::*;

verus! {

/// TransformProfile defines the operations applied to each line, in the
/// fixed order trim, uppercase, empty-check, duplicate-check.
#[derive(Clone, Copy, Debug, PartialEq, Eq, Structural)]
pub struct TransformProfile {
    pub trim: bool,
    pub to_upper: bool,
    pub drop_empty: bool,
    pub deduplicate: bool,
}

impl Default for TransformProfile {
    /// The documented defaults: trim and drop empty lines, leave case and
    /// duplicates alone.
    fn default() -> (p: Self)
        ensures
            p.trim,
            !p.to_upper,
            p.drop_empty,
            !p.deduplicate,
    {
        TransformProfile { trim: true, to_upper: false, drop_empty: true, deduplicate: false }
    }
}

/// The boundary-side mirror of `TransformProfile`: four one-byte booleans
/// in fixed order, converted field for field.
#[derive(Clone, Copy, Debug, PartialEq, Eq, Structural)]
pub struct AstraProfile {
    pub trim: bool,
    pub to_upper: bool,
    pub drop_empty: bool,
    pub deduplicate: bool,
}

impl From<AstraProfile> for TransformProfile {
    fn from(value: AstraProfile) -> (p: Self) {
        TransformProfile {
            trim: value.trim,
            to_upper: value.to_upper,
            drop_empty: value.drop_empty,
            deduplicate: value.deduplicate,
        }
    }
}

impl vstd::std_specs::convert::FromSpecImpl<AstraProfile> for TransformProfile {
    open spec fn obeys_from_spec() -> bool {
        true
    }

    open spec fn from_spec(value: AstraProfile) -> Self {
        TransformProfile {
            trim: value.trim,
            to_upper: value.to_upper,
            drop_empty: value.drop_empty,
            deduplicate: value.deduplicate,
        }
    }
}

impl From<TransformProfile> for AstraProfile {
    fn from(value: TransformProfile) -> (p: Self) {
        AstraProfile {
            trim: value.trim,
            to_upper: value.to_upper,
            drop_empty: value.drop_empty,
            deduplicate: value.deduplicate,
        }
    }
}

impl vstd::std_specs::convert::FromSpecImpl<TransformProfile> for AstraProfile {
    open spec fn obeys_from_spec() -> bool {
        true
    }

    open spec fn from_spec(value: TransformProfile) -> Self {
        AstraProfile {
            trim: value.trim,
            to_upper: value.to_upper,
            drop_empty: value.drop_empty,
            deduplicate: value.deduplicate,
        }
    }
}

} // verus!
