//! Dell extensions: the iDRAC and BIOS attribute values the library sets and reads.

use vstd::prelude::*;

use crate::json::JsonValue;

verus! {

/// The first boot device of the iDRAC `ServerBoot` attributes.
#[derive(Clone, Copy, Debug, PartialEq, Eq, Structural)]
pub enum BootDevices {
    Normal,
    PXE,
    HDD,
    BIOS,
    F10,
    F11,
}

impl BootDevices {
    pub open spec fn text(self) -> Seq<char> {
        match self {
            BootDevices::Normal => "Normal"@,
            BootDevices::PXE => "PXE"@,
            BootDevices::HDD => "HDD"@,
            BootDevices::BIOS => "BIOS"@,
            BootDevices::F10 => "F10"@,
            BootDevices::F11 => "F11"@,
        }
    }

    /// The name of the value.
    pub fn to_string(&self) -> (r: String)
        ensures
            r@ == self.text(),
    {
        match self {
            BootDevices::Normal => "Normal".to_string(),
            BootDevices::PXE => "PXE".to_string(),
            BootDevices::HDD => "HDD".to_string(),
            BootDevices::BIOS => "BIOS".to_string(),
            BootDevices::F10 => "F10".to_string(),
            BootDevices::F11 => "F11".to_string(),
        }
    }
}

/// When pending settings are applied.
#[derive(Clone, Copy, Debug, PartialEq, Eq, Structural)]
pub enum RedfishSettingsApplyTime {
    Immediate,
    OnReset,
    AtMaintenanceWindowStart,
    InMaintenanceWindowOnReset,
}

impl RedfishSettingsApplyTime {
    pub open spec fn text(self) -> Seq<char> {
        match self {
            RedfishSettingsApplyTime::Immediate => "Immediate"@,
            RedfishSettingsApplyTime::OnReset => "OnReset"@,
            RedfishSettingsApplyTime::AtMaintenanceWindowStart => "AtMaintenanceWindowStart"@,
            RedfishSettingsApplyTime::InMaintenanceWindowOnReset => "InMaintenanceWindowOnReset"@,
        }
    }

    /// The name of the value.
    pub fn to_string(&self) -> (r: String)
        ensures
            r@ == self.text(),
    {
        match self {
            RedfishSettingsApplyTime::Immediate => "Immediate".to_string(),
            RedfishSettingsApplyTime::OnReset => "OnReset".to_string(),
            RedfishSettingsApplyTime::AtMaintenanceWindowStart => "AtMaintenanceWindowStart".to_string(),
            RedfishSettingsApplyTime::InMaintenanceWindowOnReset => "InMaintenanceWindowOnReset".to_string(),
        }
    }
}

/// Access to UEFI variables from the host.
#[derive(Clone, Copy, Debug, PartialEq, Eq, Structural)]
pub enum UefiVariableAccessSettings {
    Standard,
    Controlled,
}

impl UefiVariableAccessSettings {
    pub open spec fn text(self) -> Seq<char> {
        match self {
            UefiVariableAccessSettings::Standard => "Standard"@,
            UefiVariableAccessSettings::Controlled => "Controlled"@,
        }
    }

    /// The name of the value.
    pub fn to_string(&self) -> (r: String)
        ensures
            r@ == self.text(),
    {
        match self {
            UefiVariableAccessSettings::Standard => "Standard".to_string(),
            UefiVariableAccessSettings::Controlled => "Controlled".to_string(),
        }
    }
}

/// Serial communication of the BIOS.
#[derive(Clone, Copy, Debug, PartialEq, Eq, Structural)]
pub enum SerialCommSettings {
    OnConRedir,
    OnNoConRedir,
    OnConRedirAuto,
    OnConRedirCom1,
    OnConRedirCom2,
    Off,
}

impl SerialCommSettings {
    pub open spec fn text(self) -> Seq<char> {
        match self {
            SerialCommSettings::OnConRedir => "OnConRedir"@,
            SerialCommSettings::OnNoConRedir => "OnNoConRedir"@,
            SerialCommSettings::OnConRedirAuto => "OnConRedirAuto"@,
            SerialCommSettings::OnConRedirCom1 => "OnConRedirCom1"@,
            SerialCommSettings::OnConRedirCom2 => "OnConRedirCom2"@,
            SerialCommSettings::Off => "Off"@,
        }
    }

    /// The name of the value.
    pub fn to_string(&self) -> (r: String)
        ensures
            r@ == self.text(),
    {
        match self {
            SerialCommSettings::OnConRedir => "OnConRedir".to_string(),
            SerialCommSettings::OnNoConRedir => "OnNoConRedir".to_string(),
            SerialCommSettings::OnConRedirAuto => "OnConRedirAuto".to_string(),
            SerialCommSettings::OnConRedirCom1 => "OnConRedirCom1".to_string(),
            SerialCommSettings::OnConRedirCom2 => "OnConRedirCom2".to_string(),
            SerialCommSettings::Off => "Off".to_string(),
        }
    }
}

/// Which port is serial port one.
#[derive(Clone, Copy, Debug, PartialEq, Eq, Structural)]
pub enum SerialPortSettings {
    Com1,
    Com2,
}

impl SerialPortSettings {
    pub open spec fn text(self) -> Seq<char> {
        match self {
            SerialPortSettings::Com1 => "Com1"@,
            SerialPortSettings::Com2 => "Com2"@,
        }
    }

    /// The name of the value.
    pub fn to_string(&self) -> (r: String)
        ensures
            r@ == self.text(),
    {
        match self {
            SerialPortSettings::Com1 => "Com1".to_string(),
            SerialPortSettings::Com2 => "Com2".to_string(),
        }
    }
}

/// What the external serial connector is wired to.
#[derive(Clone, Copy, Debug, PartialEq, Eq, Structural)]
pub enum SerialPortExtSettings {
    Serial1,
    Serial2,
    RemoteAccDevice,
}

impl SerialPortExtSettings {
    pub open spec fn text(self) -> Seq<char> {
        match self {
            SerialPortExtSettings::Serial1 => "Serial1"@,
            SerialPortExtSettings::Serial2 => "Serial2"@,
            SerialPortExtSettings::RemoteAccDevice => "RemoteAccDevice"@,
        }
    }

    /// The name of the value.
    pub fn to_string(&self) -> (r: String)
        ensures
            r@ == self.text(),
    {
        match self {
            SerialPortExtSettings::Serial1 => "Serial1".to_string(),
            SerialPortExtSettings::Serial2 => "Serial2".to_string(),
            SerialPortExtSettings::RemoteAccDevice => "RemoteAccDevice".to_string(),
        }
    }
}

/// The terminal type of console redirection.
#[derive(Clone, Copy, Debug, PartialEq, Eq, Structural)]
pub enum SerialPortTermSettings {
    Vt100Vt220,
    Ansi,
}

impl SerialPortTermSettings {
    pub open spec fn text(self) -> Seq<char> {
        match self {
            SerialPortTermSettings::Vt100Vt220 => "Vt100Vt220"@,
            SerialPortTermSettings::Ansi => "Ansi"@,
        }
    }

    /// The name of the value.
    pub fn to_string(&self) -> (r: String)
        ensures
            r@ == self.text(),
    {
        match self {
            SerialPortTermSettings::Vt100Vt220 => "Vt100Vt220".to_string(),
            SerialPortTermSettings::Ansi => "Ansi".to_string(),
        }
    }
}

/// The TPM 2.0 hierarchy setting.
#[derive(Clone, Copy, Debug, PartialEq, Eq, Structural)]
pub enum Tpm2HierarchySettings {
    Enabled,
    Disabled,
    Clear,
}

impl Tpm2HierarchySettings {
    pub open spec fn text(self) -> Seq<char> {
        match self {
            Tpm2HierarchySettings::Enabled => "Enabled"@,
            Tpm2HierarchySettings::Disabled => "Disabled"@,
            Tpm2HierarchySettings::Clear => "Clear"@,
        }
    }

    /// The name of the value.
    pub fn to_string(&self) -> (r: String)
        ensures
            r@ == self.text(),
    {
        match self {
            Tpm2HierarchySettings::Enabled => "Enabled".to_string(),
            Tpm2HierarchySettings::Disabled => "Disabled".to_string(),
            Tpm2HierarchySettings::Clear => "Clear".to_string(),
        }
    }
}

/// The BIOS attributes that lockdown concerns.
#[derive(Debug, Clone)]
pub struct BiosAttributes {
    pub in_band_manageability_interface: String,
    pub uefi_variable_access: String,
}

/// The BIOS resource of a Dell system, as far as the library reads it.
#[derive(Debug, Clone)]
pub struct Bios {
    pub attributes: BiosAttributes,
}

/// The Dell section of a manager: its members, in document order.
#[derive(Debug)]
pub struct Manager {
    pub members: Vec<(String, JsonValue)>,
}

/// The Dell section of a computer system: its members, in document order.
#[derive(Debug)]
pub struct SystemWrapper {
    pub members: Vec<(String, JsonValue)>,
}

/// Each `BootDevices` is sent under its own name.
pub proof fn lemma_boot_devices_names()
    ensures
        BootDevices::Normal.text() == "Normal"@,
        BootDevices::PXE.text() == "PXE"@,
        BootDevices::HDD.text() == "HDD"@,
        BootDevices::BIOS.text() == "BIOS"@,
        BootDevices::F10.text() == "F10"@,
        BootDevices::F11.text() == "F11"@,
{
}

/// Each `RedfishSettingsApplyTime` is sent under its own name.
pub proof fn lemma_redfish_settings_apply_time_names()
    ensures
        RedfishSettingsApplyTime::Immediate.text() == "Immediate"@,
        RedfishSettingsApplyTime::OnReset.text() == "OnReset"@,
        RedfishSettingsApplyTime::AtMaintenanceWindowStart.text() == "AtMaintenanceWindowStart"@,
        RedfishSettingsApplyTime::InMaintenanceWindowOnReset.text() == "InMaintenanceWindowOnReset"@,
{
}

/// Each `UefiVariableAccessSettings` is sent under its own name.
pub proof fn lemma_uefi_variable_access_settings_names()
    ensures
        UefiVariableAccessSettings::Standard.text() == "Standard"@,
        UefiVariableAccessSettings::Controlled.text() == "Controlled"@,
{
}

/// Each `SerialCommSettings` is sent under its own name.
pub proof fn lemma_serial_comm_settings_names()
    ensures
        SerialCommSettings::OnConRedir.text() == "OnConRedir"@,
        SerialCommSettings::OnNoConRedir.text() == "OnNoConRedir"@,
        SerialCommSettings::OnConRedirAuto.text() == "OnConRedirAuto"@,
        SerialCommSettings::OnConRedirCom1.text() == "OnConRedirCom1"@,
        SerialCommSettings::OnConRedirCom2.text() == "OnConRedirCom2"@,
        SerialCommSettings::Off.text() == "Off"@,
{
}

/// Each `SerialPortSettings` is sent under its own name.
pub proof fn lemma_serial_port_settings_names()
    ensures
        SerialPortSettings::Com1.text() == "Com1"@,
        SerialPortSettings::Com2.text() == "Com2"@,
{
}

/// Each `SerialPortExtSettings` is sent under its own name.
pub proof fn lemma_serial_port_ext_settings_names()
    ensures
        SerialPortExtSettings::Serial1.text() == "Serial1"@,
        SerialPortExtSettings::Serial2.text() == "Serial2"@,
        SerialPortExtSettings::RemoteAccDevice.text() == "RemoteAccDevice"@,
{
}

/// Each `SerialPortTermSettings` is sent under its own name.
pub proof fn lemma_serial_port_term_settings_names()
    ensures
        SerialPortTermSettings::Vt100Vt220.text() == "Vt100Vt220"@,
        SerialPortTermSettings::Ansi.text() == "Ansi"@,
{
}

/// Each `Tpm2HierarchySettings` is sent under its own name.
pub proof fn lemma_tpm2_hierarchy_settings_names()
    ensures
        Tpm2HierarchySettings::Enabled.text() == "Enabled"@,
        Tpm2HierarchySettings::Disabled.text() == "Disabled"@,
        Tpm2HierarchySettings::Clear.text() == "Clear"@,
{
}

} // verus!
