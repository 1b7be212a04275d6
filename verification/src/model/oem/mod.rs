//! Vendor (OEM) extensions of the Redfish resources.

use vstd::prelude::*;

pub mod dell;
pub mod hp;
pub mod lenovo;
pub mod nvidia_viking;
pub mod supermicro;

verus! {

#[derive(Debug)]
pub struct ManagerExtensions {
    pub dell: Option<dell::Manager>,
    pub lenovo: Option<lenovo::Manager>,
}

#[derive(Debug)]
pub struct SystemExtensions {
    pub dell: Option<dell::SystemWrapper>,
    pub lenovo: Option<lenovo::System>,
}

} // verus!
