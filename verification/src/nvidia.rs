//! Nvidia DPUs (BlueField BMC).

use vstd::prelude::*;

use crate::error::RedfishError;
use crate::network::{get_of, Request};
use crate::standard::RedfishStandard;
use crate::text;

verus! {

/// `Chassis/{chassis_id}/NetworkAdapters/NvidiaNetworkAdapter/` followed by `suffix`.
pub open spec fn adapter_path(chassis_id: Seq<char>, suffix: Seq<char>) -> Seq<char> {
    "Chassis/"@ + chassis_id + "/NetworkAdapters/NvidiaNetworkAdapter/"@ + suffix
}

fn adapter(chassis_id: &str, suffix: &str) -> (r: String)
    ensures
        r@ == adapter_path(chassis_id@, suffix@),
{
    let mut p = text::owned("Chassis/");
    text::append(&mut p, chassis_id);
    text::append(&mut p, "/NetworkAdapters/NvidiaNetworkAdapter/");
    text::append(&mut p, suffix);
    p
}

/// A DPU's BMC.
#[derive(Debug)]
pub struct Bmc {
    s: RedfishStandard,
}

impl Bmc {
    pub closed spec fn standard(&self) -> RedfishStandard {
        self.s
    }

    pub fn new(s: RedfishStandard) -> (r: Result<Bmc, RedfishError>)
        ensures
            r matches Ok(b) && b.standard() == s,
    {
        Ok(Bmc { s })
    }

    /// The connection this DPU is reached through.
    pub fn standard_ref(&self) -> (r: &RedfishStandard)
        ensures
            *r == self.standard(),
    {
        &self.s
    }

    /// The request for the ports of the network adapter.
    pub fn get_ports(&self, chassis_id: &str) -> (r: Request)
        ensures
            r@ == get_of(adapter_path(chassis_id@, "Ports"@)),
    {
        Request::get(adapter(chassis_id, "Ports"))
    }

    /// The request for a port of the network adapter.
    pub fn get_port(&self, chassis_id: &str, id: &str) -> (r: Request)
        ensures
            r@ == get_of(adapter_path(chassis_id@, "Ports/"@ + id@)),
    {
        let suffix = text::concat("Ports/", id);
        Request::get(adapter(chassis_id, suffix.as_str()))
    }

    /// The request for a network device function of the network adapter.
    pub fn get_network_device_function(&self, chassis_id: &str, id: &str) -> (r: Request)
        ensures
            r@ == get_of(adapter_path(chassis_id@, "NetworkDeviceFunctions/"@ + id@)),
    {
        let suffix = text::concat("NetworkDeviceFunctions/", id);
        Request::get(adapter(chassis_id, suffix.as_str()))
    }

    /// The request for the network device functions of the network adapter.
    pub fn get_network_device_functions(&self, chassis_id: &str) -> (r: Request)
        ensures
            r@ == get_of(adapter_path(chassis_id@, "NetworkDeviceFunctions"@)),
    {
        Request::get(adapter(chassis_id, "NetworkDeviceFunctions"))
    }
}

} // verus!
