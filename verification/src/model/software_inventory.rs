//! An inventory entry of a software component.

use vstd::prelude::*;

use super::ODataLinks;

verus! {

/// http://redfish.dmtf.org/schemas/v1/SoftwareInventory.v1_9_0.json
#[derive(Debug)]
pub struct SoftwareInventory {
    pub odata: ODataLinks,
    pub description: Option<String>,
    pub id: String,
    pub version: Option<String>,
    pub release_date: Option<String>,
}

} // verus!
