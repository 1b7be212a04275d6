//! UEFI Secure Boot state of a system.

use vstd::prelude::*;

use super::{EnabledDisabled, ODataLinks};

verus! {

/// http://redfish.dmtf.org/schemas/v1/SecureBoot.v1_0_7.json
#[derive(Debug)]
pub struct SecureBoot {
    pub odata: ODataLinks,
    pub id: String,
    pub name: String,
    pub secure_boot_current_boot: EnabledDisabled,
    pub secure_boot_enable: bool,
    pub secure_boot_mode: SecureBootMode,
}

#[derive(Clone, Copy, Debug, PartialEq, Eq, Structural)]
pub enum SecureBootMode {
    SetupMode,
    UserMode,
    AuditMode,
    DeployedMode,
}

} // verus!
