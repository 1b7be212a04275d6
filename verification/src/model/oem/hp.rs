//! HPE extensions.

use vstd::prelude::*;

verus! {

/// The `@odata.type` that HPE puts in its OEM sections.
#[derive(Debug, Clone)]
pub struct HpType {
    pub odata_type: String,
}

} // verus!
