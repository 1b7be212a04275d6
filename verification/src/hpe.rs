//! HPE (iLO) servers. Lockdown, serial console, boot order and TPM calls are
//! not implemented for them.

use vstd::prelude::*;

use crate::error::RedfishError;
use crate::model::SystemPowerControl;
use crate::network::{get_of, post_of, Request};
use crate::standard::RedfishStandard;

verus! {

/// An HPE server.
#[derive(Debug)]
pub struct Bmc {
    s: RedfishStandard,
}

impl Bmc {
    pub closed spec fn standard(&self) -> RedfishStandard {
        self.s
    }

    pub fn new(s: RedfishStandard) -> (r: Result<Bmc, RedfishError>)
        ensures
            r matches Ok(b) && b.standard() == s,
    {
        Ok(Bmc { s })
    }

    /// The connection this server is reached through.
    pub fn standard_ref(&self) -> (r: &RedfishStandard)
        ensures
            *r == self.standard(),
    {
        &self.s
    }

    /// The request whose answer holds the power state.
    pub fn get_power_state(&self) -> (r: Request)
        ensures
            r@ == get_of("Systems/"@ + self.standard().sid() + "/"@),
    {
        self.s.get_power_state()
    }

    /// The request that changes the power state.
    pub fn power(&self, action: SystemPowerControl) -> (r: Request)
        ensures
            r@ == post_of(
                "Systems/"@ + self.standard().sid() + "/Actions/ComputerSystem.Reset"@,
                RedfishStandard::power_body(action),
            ),
    {
        self.s.power(action)
    }

    /// The request for all the BIOS attributes.
    pub fn get_bios_attributes(&self) -> (r: Request)
        ensures
            r@ == get_of("Systems/"@ + self.standard().sid() + "/Bios"@),
    {
        self.s.bios_attributes()
    }
}

} // verus!
