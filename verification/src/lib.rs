//! A Redfish client library: the requests that drive a BMC and the
//! decisions taken on what the BMC answers.

use vstd::prelude::*;

pub mod dell;
pub mod error;
pub mod hpe;
pub mod json;
pub mod lenovo;
pub mod manager;
pub mod model;
pub mod network;
pub mod nvidia;
pub mod nvidia_gbx00;
pub mod standard;
pub mod supermicro;
pub mod text;

pub use error::RedfishError;
pub use model::{EnabledDisabled, PowerState, SystemPowerControl, Systems};
pub use network::{NetworkConfig, REDFISH_ENDPOINT};

verus! {

/// Where a single boot, or the first entry of the boot order, should go.
#[derive(Clone, Copy, Debug, PartialEq, Eq, Structural)]
pub enum Boot {
    Pxe,
    HardDisk,
}

/// How far lockdown has got.
#[derive(Clone, Copy, Debug, PartialEq, Eq, Structural)]
pub enum LockdownStatusInternal {
    Enabled,
    Partial,
    Disabled,
}

/// Whether the BIOS and the BMC are locked down, with a vendor specific message.
#[derive(Debug)]
pub struct LockdownStatus {
    pub(crate) status: LockdownStatusInternal,
    pub(crate) message: String,
}

impl LockdownStatus {
    pub closed spec fn state(&self) -> LockdownStatusInternal {
        self.status
    }

    pub closed spec fn message_view(&self) -> Seq<char> {
        self.message@
    }

    /// Builds a status from its state and its message.
    pub(crate) fn from_parts(status: LockdownStatusInternal, message: String) -> (r: Self)
        ensures
            r.state() == status,
            r.message_view() == message@,
    {
        LockdownStatus { status, message }
    }

    /// Did enabling lockdown complete successfully?
    pub fn is_fully_locked(&self) -> (r: bool)
        ensures
            r == (self.state() == LockdownStatusInternal::Enabled),
    {
        self.status == LockdownStatusInternal::Enabled
    }

    /// Did disabling lockdown complete successfuly, or new machine was never locked?
    pub fn is_fully_unlocked(&self) -> (r: bool)
        ensures
            r == (self.state() == LockdownStatusInternal::Disabled),
    {
        self.status == LockdownStatusInternal::Disabled
    }

    /// Did lockdown enable/disable fail part way through, so we are partially locked?
    pub fn is_partially_locked(&self) -> (r: bool)
        ensures
            r == (self.state() == LockdownStatusInternal::Partial),
    {
        self.status == LockdownStatusInternal::Partial
    }

    /// A vendor specific message detailing which things are locked and which things are unlocked.
    /// Format of message will change, do not parse.
    pub fn message(&self) -> (r: &str)
        ensures
            r@ == self.message_view(),
    {
        self.message.as_str()
    }
}

/// A lockdown status is exactly one of fully locked, fully unlocked and
/// partially locked.
pub proof fn lemma_lockdown_status_exactly_one(st: LockdownStatus)
    ensures
        (st.state() == LockdownStatusInternal::Enabled) as int + (st.state()
            == LockdownStatusInternal::Disabled) as int + (st.state()
            == LockdownStatusInternal::Partial) as int == 1,
{
}

} // verus!
