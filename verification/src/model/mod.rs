//! The Redfish resources the library reads and writes.

use vstd::prelude::*;

pub mod account_service;
pub mod bios;
pub mod boot;
pub mod error;
pub mod job;
pub mod manager_network_protocol;
pub mod oem;
pub mod secure_boot;
pub mod service_root;
pub mod software_inventory;
pub mod task;
pub mod thermal;
pub mod update_service;

pub use bios::{BiosAction, BiosActions, BiosCommon, SoftwareImage};

verus! {

/// A link to another resource.
#[derive(Debug, Clone)]
pub struct ODataId {
    pub odata_id: String,
}

/// The OData annotations that most resources carry.
#[derive(Debug)]
pub struct ODataLinks {
    pub odata_context: Option<String>,
    pub odata_id: String,
    pub odata_type: String,
    pub odata_etag: Option<String>,
}

/// A copy of an optional string.
pub fn clone_opt_string(s: &Option<String>) -> (r: Option<String>)
    ensures
        r == *s,
{
    match s {
        Some(x) => Some(x.clone()),
        None => None,
    }
}

impl ODataLinks {
    /// A copy of these annotations.
    pub fn duplicate(&self) -> (r: ODataLinks)
        ensures
            r == *self,
    {
        ODataLinks {
            odata_context: clone_opt_string(&self.odata_context),
            odata_id: self.odata_id.clone(),
            odata_type: self.odata_type.clone(),
            odata_etag: clone_opt_string(&self.odata_etag),
        }
    }
}

/// The OData annotations of the service root.
#[derive(Debug, Clone, Default)]
pub struct OData {
    pub odata_id: String,
    pub odata_type: String,
    pub odata_etag: Option<String>,
    pub odata_context: Option<String>,
}

/// `Enabled` or `Disabled`, as most Redfish attributes spell it.
#[derive(Clone, Copy, Debug, PartialEq, Eq, Structural)]
pub enum EnabledDisabled {
    Enabled,
    Disabled,
}

impl EnabledDisabled {
    pub open spec fn text(self) -> Seq<char> {
        match self {
            EnabledDisabled::Enabled => "Enabled"@,
            EnabledDisabled::Disabled => "Disabled"@,
        }
    }

    /// The name of the value.
    pub fn to_string(&self) -> (r: String)
        ensures
            r@ == self.text(),
    {
        match self {
            EnabledDisabled::Enabled => "Enabled".to_string(),
            EnabledDisabled::Disabled => "Disabled".to_string(),
        }
    }

    pub fn is_enabled(&self) -> (r: bool)
        ensures
            r == (*self == EnabledDisabled::Enabled),
    {
        match self {
            EnabledDisabled::Enabled => true,
            EnabledDisabled::Disabled => false,
        }
    }
}

/// `Enable` or `Disable`, as some BIOS attributes spell it.
#[derive(Clone, Copy, Debug, PartialEq, Eq, Structural)]
pub enum EnableDisable {
    Enable,
    Disable,
}

impl EnableDisable {
    pub open spec fn text(self) -> Seq<char> {
        match self {
            EnableDisable::Enable => "Enable"@,
            EnableDisable::Disable => "Disable"@,
        }
    }

    /// The name of the value.
    pub fn to_string(&self) -> (r: String)
        ensures
            r@ == self.text(),
    {
        match self {
            EnableDisable::Enable => "Enable".to_string(),
            EnableDisable::Disable => "Disable".to_string(),
        }
    }
}

/// `On` or `Off`.
#[derive(Clone, Copy, Debug, PartialEq, Eq, Structural)]
pub enum OnOff {
    On,
    Off,
}

impl OnOff {
    pub open spec fn text(self) -> Seq<char> {
        match self {
            OnOff::On => "On"@,
            OnOff::Off => "Off"@,
        }
    }

    /// The name of the value.
    pub fn to_string(&self) -> (r: String)
        ensures
            r@ == self.text(),
    {
        match self {
            OnOff::On => "On".to_string(),
            OnOff::Off => "Off".to_string(),
        }
    }
}

/// A `ResetType` of a computer system.
#[derive(Clone, Copy, Debug, PartialEq, Eq, Structural)]
pub enum SystemPowerControl {
    On,
    GracefulShutdown,
    ForceOff,
    GracefulRestart,
    ForceRestart,
}

impl SystemPowerControl {
    pub open spec fn text(self) -> Seq<char> {
        match self {
            SystemPowerControl::On => "On"@,
            SystemPowerControl::GracefulShutdown => "GracefulShutdown"@,
            SystemPowerControl::ForceOff => "ForceOff"@,
            SystemPowerControl::GracefulRestart => "GracefulRestart"@,
            SystemPowerControl::ForceRestart => "ForceRestart"@,
        }
    }

    /// The name of the value.
    pub fn to_string(&self) -> (r: String)
        ensures
            r@ == self.text(),
    {
        match self {
            SystemPowerControl::On => "On".to_string(),
            SystemPowerControl::GracefulShutdown => "GracefulShutdown".to_string(),
            SystemPowerControl::ForceOff => "ForceOff".to_string(),
            SystemPowerControl::GracefulRestart => "GracefulRestart".to_string(),
            SystemPowerControl::ForceRestart => "ForceRestart".to_string(),
        }
    }
}

/// The power state of a computer system.
#[derive(Clone, Copy, Debug, PartialEq, Eq, Structural)]
pub enum PowerState {
    Off,
    On,
    PoweringOff,
    PoweringOn,
    Paused,
    Reset,
}

/// A boot option of a computer system.
#[derive(Debug, Clone)]
pub struct BootOption {
    pub id: String,
    pub name: String,
    pub display_name: String,
    pub uefi_device_path: Option<String>,
}

/// The collection of a computer system's boot options.
#[derive(Debug, Clone)]
pub struct BootOptions {
    pub members: Vec<ODataId>,
}

/// The collection of computer systems.
#[derive(Debug, Clone)]
pub struct Systems {
    pub members: Vec<ODataId>,
}

/// The boot settings of a computer system.
#[derive(Debug, Clone)]
pub struct BootSettings {
    pub boot_order: Vec<String>,
}

/// A computer system, as far as the library reads it.
#[derive(Debug, Clone)]
pub struct ComputerSystem {
    pub id: String,
    pub power_state: PowerState,
    pub boot: BootSettings,
}

/// The health and state of a component.
#[derive(Debug, Clone)]
pub struct SomeStatus {
    pub health: Option<String>,
    pub state: Option<String>,
}

/// A string, or the empty string when there is none.
pub open spec fn text_or_empty(s: Option<String>) -> Seq<char> {
    match s {
        Some(x) => x@,
        None => Seq::empty(),
    }
}

impl SomeStatus {
    /// The health, or the empty string when the BMC gives none.
    pub fn health(&self) -> (r: String)
        ensures
            r@ == text_or_empty(self.health),
    {
        match &self.health {
            Some(h) => h.clone(),
            None => String::new(),
        }
    }

    /// The state, or the empty string when the BMC gives none.
    pub fn state(&self) -> (r: String)
        ensures
            r@ == text_or_empty(self.state),
    {
        match &self.state {
            Some(s) => s.clone(),
            None => String::new(),
        }
    }
}

/// A PCIe device, as far as the library reads it.
#[derive(Debug, Clone)]
pub struct PCIeDevice {
    pub id: Option<String>,
    pub name: Option<String>,
    pub manufacturer: Option<String>,
    pub status: Option<SomeStatus>,
}

/// One difference between the expected and the actual machine setup.
#[derive(Debug, Clone)]
pub struct MachineSetupDiff {
    pub key: String,
    pub expected: String,
    pub actual: String,
}

/// Whether the machine setup is complete, and what still differs.
#[derive(Debug, Clone)]
pub struct MachineSetupStatus {
    pub is_done: bool,
    pub diffs: Vec<MachineSetupDiff>,
}

/// Each `EnabledDisabled` is sent under its own name.
pub proof fn lemma_enabled_disabled_names()
    ensures
        EnabledDisabled::Enabled.text() == "Enabled"@,
        EnabledDisabled::Disabled.text() == "Disabled"@,
{
}

/// Each `EnableDisable` is sent under its own name.
pub proof fn lemma_enable_disable_names()
    ensures
        EnableDisable::Enable.text() == "Enable"@,
        EnableDisable::Disable.text() == "Disable"@,
{
}

/// Each `OnOff` is sent under its own name.
pub proof fn lemma_on_off_names()
    ensures
        OnOff::On.text() == "On"@,
        OnOff::Off.text() == "Off"@,
{
}

/// Each `SystemPowerControl` is sent under its own name.
pub proof fn lemma_system_power_control_names()
    ensures
        SystemPowerControl::On.text() == "On"@,
        SystemPowerControl::GracefulShutdown.text() == "GracefulShutdown"@,
        SystemPowerControl::ForceOff.text() == "ForceOff"@,
        SystemPowerControl::GracefulRestart.text() == "GracefulRestart"@,
        SystemPowerControl::ForceRestart.text() == "ForceRestart"@,
{
}

} // verus!
