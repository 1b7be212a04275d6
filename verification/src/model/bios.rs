//! The parts of a BIOS resource that every vendor shares.

use vstd::prelude::*;

use super::ODataId;

verus! {

#[derive(Debug, Clone)]
pub struct SoftwareImage {
    pub software_images: Vec<ODataId>,
    pub active_software_image: ODataId,
}

#[derive(Debug, Clone)]
pub struct BiosActions {
    pub change_password: BiosAction,
    pub reset_bios: BiosAction,
}

#[derive(Debug, Clone)]
pub struct BiosAction {
    /// Lenovo gives one, Dell does not.
    pub title: Option<String>,
    /// The URL path of the action.
    pub target: String,
}

#[derive(Debug, Clone)]
pub struct BiosCommon {
    pub odata_id: String,
    pub id: String,
    pub name: String,
    pub description: String,
    pub attribute_registry: String,
    pub links: SoftwareImage,
    pub actions: BiosActions,
}

} // verus!
