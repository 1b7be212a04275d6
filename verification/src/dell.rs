//! Dell (iDRAC) servers.

use vstd::prelude::*;

use crate::error::RedfishError;
use crate::json::{
    holds_all, lookup, obj_member_error, obj_member_of, obj_member_ok, push_member, str_member, str_member_error,
    str_member_of, str_member_ok, view_entries, JsonValue, JsonView,
};
use crate::model::oem::dell::{
    Bios, BootDevices, RedfishSettingsApplyTime, SerialCommSettings, SerialPortExtSettings,
    SerialPortSettings, SerialPortTermSettings, Tpm2HierarchySettings, UefiVariableAccessSettings,
};
use crate::model::{EnabledDisabled, OnOff};
use crate::network::{patch_of, post_of, views, Method, Request, RequestView};
use crate::standard::RedfishStandard;
use crate::text;
use crate::{Boot, LockdownStatus, LockdownStatusInternal};

verus! {

/// A string member.
pub open spec fn member(key: Seq<char>, value: Seq<char>) -> (Seq<char>, JsonView) {
    (key, JsonView::String(value))
}

/// `Enabled` when `b` holds, else `Disabled`.
pub open spec fn enabled_if(b: bool) -> EnabledDisabled {
    if b {
        EnabledDisabled::Enabled
    } else {
        EnabledDisabled::Disabled
    }
}

/// The body of a settings change: when to apply it, and the attributes.
pub open spec fn settings_body(
    t: RedfishSettingsApplyTime,
    attrs: Seq<(Seq<char>, JsonView)>,
) -> JsonView {
    JsonView::Object(
        seq![
            ("@Redfish.SettingsApplyTime"@, JsonView::Object(seq![member("ApplyTime"@, t.text())])),
            ("Attributes"@, JsonView::Object(attrs)),
        ],
    )
}

/// The BIOS attributes that lock (or, for `false`, unlock) the host's access.
pub open spec fn bios_lockdown_attrs(enable: bool) -> Seq<(Seq<char>, JsonView)> {
    seq![
        member("InBandManageabilityInterface"@, enabled_if(!enable).text()),
        member(
            "UefiVariableAccess"@,
            if enable {
                UefiVariableAccessSettings::Controlled.text()
            } else {
                UefiVariableAccessSettings::Standard.text()
            },
        ),
    ]
}

/// The iDRAC attributes that choose the first boot device.
pub open spec fn server_boot_attrs(entry: BootDevices, once: bool) -> Seq<(Seq<char>, JsonView)> {
    seq![
        member("ServerBoot.1.FirstBootDevice"@, entry.text()),
        member("ServerBoot.1.BootOnce"@, enabled_if(once).text()),
    ]
}

/// The iDRAC attributes that lock (or unlock) the BMC, with the boot device.
pub open spec fn bmc_lockdown_attrs(enable: bool, entry: BootDevices, once: bool) -> Seq<
    (Seq<char>, JsonView),
> {
    seq![
        member("Lockdown.1.SystemLockdown"@, enabled_if(enable).text()),
        member("Racadm.1.Enable"@, enabled_if(!enable).text()),
    ] + server_boot_attrs(entry, once)
}

/// The BIOS attributes of the serial console.
pub open spec fn serial_console_attrs() -> Seq<(Seq<char>, JsonView)> {
    seq![
        member("SerialComm"@, SerialCommSettings::OnConRedir.text()),
        member("SerialPortAddress"@, SerialPortSettings::Com1.text()),
        member("ExtSerialConnector"@, SerialPortExtSettings::Serial1.text()),
        member("FailSafeBaud"@, "115200"@),
        member("ConTermType"@, SerialPortTermSettings::Vt100Vt220.text()),
        member("RedirAfterBoot"@, EnabledDisabled::Enabled.text()),
    ]
}

/// The iDRAC attributes of remote access: SSH, serial redirection, IPMI over
/// LAN and serial over LAN.
pub open spec fn remote_access_attrs() -> Seq<(Seq<char>, JsonView)> {
    seq![
        member("SSH.1.Enable"@, EnabledDisabled::Enabled.text()),
        member("SerialRedirection.1.Enable"@, EnabledDisabled::Enabled.text()),
        member("IPMILan.1.Enable"@, EnabledDisabled::Enabled.text()),
        member("IPMISOL.1.Enable"@, EnabledDisabled::Enabled.text()),
        member("IPMISOL.1.BaudRate"@, "115200"@),
        member("IPMISOL.1.MinPrivilege"@, "Administrator"@),
    ]
}

/// The BIOS attributes of the TPM.
pub open spec fn tpm_attrs(security: OnOff, hierarchy: Tpm2HierarchySettings) -> Seq<
    (Seq<char>, JsonView),
> {
    seq![member("TpmSecurity"@, security.text()), member("Tpm2Hierarchy"@, hierarchy.text())]
}

/// The lockdown state that the BIOS and BMC attribute values stand for.
pub open spec fn lockdown_state(
    in_band: Seq<char>,
    uefi_var: Seq<char>,
    system_lockdown: Seq<char>,
    racadm: Seq<char>,
) -> LockdownStatusInternal {
    let is_bios_locked = in_band == "Disabled"@ && uefi_var == "Controlled"@;
    let is_bios_unlocked = in_band == "Enabled"@ && uefi_var == "Standard"@;
    let is_bmc_locked = system_lockdown == "Enabled"@ && racadm == "Disabled"@;
    let is_bmc_unlocked = system_lockdown == "Disabled"@ && racadm == "Enabled"@;
    if is_bios_locked && is_bmc_locked {
        LockdownStatusInternal::Enabled
    } else if is_bios_unlocked && is_bmc_unlocked {
        LockdownStatusInternal::Disabled
    } else {
        LockdownStatusInternal::Partial
    }
}

/// The message that reports the four attribute values.
pub open spec fn lockdown_message(
    in_band: Seq<char>,
    uefi_var: Seq<char>,
    system_lockdown: Seq<char>,
    racadm: Seq<char>,
) -> Seq<char> {
    "BIOS: in_band_manageability_interface="@ + in_band + ", uefi_variable_access="@ + uefi_var
        + ". "@ + "BMC: system_lockdown="@ + system_lockdown + ", racadm="@ + racadm + "."@
}

/// The BMC attribute document can be read: it has an `Attributes` object with
/// string values for both lockdown keys.
pub open spec fn bmc_attrs_readable(doc: JsonView) -> bool {
    &&& obj_member_ok(doc, "Attributes"@)
    &&& str_member_ok(doc.get("Attributes"@).unwrap(), "Lockdown.1.SystemLockdown"@)
    &&& str_member_ok(doc.get("Attributes"@).unwrap(), "Racadm.1.Enable"@)
}

/// The lockdown state that the BIOS attributes and the BMC attribute document
/// stand for, when the document can be read.
pub open spec fn dell_lockdown_state(in_band: Seq<char>, uefi_var: Seq<char>, doc: JsonView) -> Option<
    LockdownStatusInternal,
> {
    if bmc_attrs_readable(doc) {
        let attrs = doc.get("Attributes"@).unwrap();
        Some(
            lockdown_state(
                in_band,
                uefi_var,
                str_member(attrs, "Lockdown.1.SystemLockdown"@),
                str_member(attrs, "Racadm.1.Enable"@),
            ),
        )
    } else {
        None
    }
}

/// Builds a string member.
fn str_entry(o: &mut Vec<(String, JsonValue)>, key: &str, value: String)
    ensures
        view_entries(final(o)@) == view_entries(old(o)@).push(member(key@, value@)),
{
    push_member(o, key, JsonValue::String(value));
}

/// Builds the body of a settings change.
fn settings(t: RedfishSettingsApplyTime, attrs: Vec<(String, JsonValue)>) -> (r: JsonValue)
    ensures
        r@ == settings_body(t, view_entries(attrs@)),
{
    let mut apply: Vec<(String, JsonValue)> = Vec::new();
    str_entry(&mut apply, "ApplyTime", t.to_string());
    let mut body: Vec<(String, JsonValue)> = Vec::new();
    push_member(&mut body, "@Redfish.SettingsApplyTime", JsonValue::Object(apply));
    push_member(&mut body, "Attributes", JsonValue::Object(attrs));
    assert(view_entries(apply@) =~= seq![member("ApplyTime"@, t.text())]);
    assert(view_entries(body@) =~= settings_body(t, view_entries(attrs@))->Object_0);
    JsonValue::Object(body)
}

/// `Enabled` when `b` holds, else `Disabled`.
fn enabled_when(b: bool) -> (r: EnabledDisabled)
    ensures
        r == enabled_if(b),
{
    if b {
        EnabledDisabled::Enabled
    } else {
        EnabledDisabled::Disabled
    }
}

/// A Dell server.
#[derive(Debug)]
pub struct Bmc {
    s: RedfishStandard,
}

impl Bmc {
    pub closed spec fn standard(&self) -> RedfishStandard {
        self.s
    }

    pub fn new(s: RedfishStandard) -> (r: Result<Bmc, RedfishError>)
        ensures
            r matches Ok(b) && b.standard() == s,
    {
        Ok(Bmc { s })
    }

    /// The connection this server is reached through.
    pub fn standard_ref(&self) -> (r: &RedfishStandard)
        ensures
            *r == self.standard(),
    {
        &self.s
    }

    /// `Systems/{system_id}/Bios/Settings/`, where BIOS changes are staged.
    pub open spec fn bios_settings_path(&self) -> Seq<char> {
        "Systems/"@ + self.standard().sid() + "/Bios/Settings/"@
    }

    /// `Managers/{manager_id}/Attributes`, where iDRAC attributes are changed.
    pub open spec fn manager_attributes_path(&self) -> Seq<char> {
        "Managers/"@ + self.standard().mid() + "/Attributes"@
    }

    /// `Managers/{manager_id}/Oem/Dell/DellAttributes/{manager_id}`, where the
    /// iDRAC attributes are read.
    pub open spec fn dell_attributes_path(&self) -> Seq<char> {
        "Managers/"@ + self.standard().mid() + "/Oem/Dell/DellAttributes/"@ + self.standard().mid()
    }

    /// The request that empties the job queue; no changes can be applied while
    /// jobs are pending.
    pub open spec fn delete_job_queue_request(&self) -> RequestView {
        post_of(
            "Managers/"@ + self.standard().mid()
                + "/Oem/Dell/DellJobService/Actions/DellJobService.DeleteJobQueue"@,
            JsonView::Object(seq![member("JobID"@, "JID_CLEARALL"@)]),
        )
    }

    /// The request that puts `entry` first in the boot order, once or for good.
    pub open spec fn boot_first_request(&self, entry: BootDevices, once: bool) -> RequestView {
        patch_of(
            self.manager_attributes_path(),
            settings_body(RedfishSettingsApplyTime::OnReset, server_boot_attrs(entry, once)),
        )
    }

    /// The request that locks (or unlocks) the BIOS.
    pub open spec fn bios_lockdown_request(&self, enable: bool) -> RequestView {
        patch_of(
            self.bios_settings_path(),
            settings_body(RedfishSettingsApplyTime::OnReset, bios_lockdown_attrs(enable)),
        )
    }

    /// The request that locks (or unlocks) the BMC. Locking applies on reset,
    /// unlocking at once (BMC settings do not need a reboot).
    pub open spec fn bmc_lockdown_request(&self, enable: bool, entry: BootDevices, once: bool) -> RequestView {
        patch_of(
            self.manager_attributes_path(),
            settings_body(
                if enable {
                    RedfishSettingsApplyTime::OnReset
                } else {
                    RedfishSettingsApplyTime::Immediate
                },
                bmc_lockdown_attrs(enable, entry, once),
            ),
        )
    }

    /// The request that enables remote access to the BMC.
    pub open spec fn remote_access_request(&self) -> RequestView {
        patch_of(
            self.manager_attributes_path(),
            settings_body(RedfishSettingsApplyTime::Immediate, remote_access_attrs()),
        )
    }

    /// The request that sets up the BIOS serial console.
    pub open spec fn serial_console_request(&self) -> RequestView {
        patch_of(
            self.bios_settings_path(),
            settings_body(RedfishSettingsApplyTime::OnReset, serial_console_attrs()),
        )
    }

    /// The request that sets the TPM.
    pub open spec fn tpm_request(&self, security: OnOff, hierarchy: Tpm2HierarchySettings) -> RequestView {
        patch_of(
            self.bios_settings_path(),
            settings_body(RedfishSettingsApplyTime::OnReset, tpm_attrs(security, hierarchy)),
        )
    }

    fn bios_settings(&self) -> (r: String)
        ensures
            r@ == self.bios_settings_path(),
    {
        self.s.system_path("/Bios/Settings/")
    }

    fn manager_attributes(&self) -> (r: String)
        ensures
            r@ == self.manager_attributes_path(),
    {
        self.s.manager_path("/Attributes")
    }

    /// The request that empties the job queue.
    pub fn delete_job_queue(&self) -> (r: Request)
        ensures
            r@ == self.delete_job_queue_request(),
    {
        let url = self.s.manager_path(
            "/Oem/Dell/DellJobService/Actions/DellJobService.DeleteJobQueue",
        );
        let mut body: Vec<(String, JsonValue)> = Vec::new();
        str_entry(&mut body, "JobID", "JID_CLEARALL".to_string());
        assert(view_entries(body@) =~= seq![member("JobID"@, "JID_CLEARALL"@)]);
        Request::post(url, JsonValue::Object(body))
    }

    /// The request that puts `entry` first in the boot order.
    pub fn set_boot_first(&self, entry: BootDevices, once: bool) -> (r: Request)
        ensures
            r@ == self.boot_first_request(entry, once),
    {
        let mut attrs: Vec<(String, JsonValue)> = Vec::new();
        str_entry(&mut attrs, "ServerBoot.1.FirstBootDevice", entry.to_string());
        str_entry(&mut attrs, "ServerBoot.1.BootOnce", enabled_when(once).to_string());
        assert(view_entries(attrs@) =~= server_boot_attrs(entry, once));
        Request::patch(self.manager_attributes(), settings(RedfishSettingsApplyTime::OnReset, attrs))
    }

    fn bios_lockdown(&self, enable: bool) -> (r: Request)
        ensures
            r@ == self.bios_lockdown_request(enable),
    {
        let mut attrs: Vec<(String, JsonValue)> = Vec::new();
        str_entry(&mut attrs, "InBandManageabilityInterface", enabled_when(!enable).to_string());
        let uefi = if enable {
            UefiVariableAccessSettings::Controlled
        } else {
            UefiVariableAccessSettings::Standard
        };
        str_entry(&mut attrs, "UefiVariableAccess", uefi.to_string());
        assert(view_entries(attrs@) =~= bios_lockdown_attrs(enable));
        Request::patch(self.bios_settings(), settings(RedfishSettingsApplyTime::OnReset, attrs))
    }

    fn bmc_lockdown(&self, enable: bool, entry: BootDevices, once: bool) -> (r: Request)
        ensures
            r@ == self.bmc_lockdown_request(enable, entry, once),
    {
        let mut attrs: Vec<(String, JsonValue)> = Vec::new();
        str_entry(&mut attrs, "Lockdown.1.SystemLockdown", enabled_when(enable).to_string());
        str_entry(&mut attrs, "Racadm.1.Enable", enabled_when(!enable).to_string());
        str_entry(&mut attrs, "ServerBoot.1.FirstBootDevice", entry.to_string());
        str_entry(&mut attrs, "ServerBoot.1.BootOnce", enabled_when(once).to_string());
        assert(view_entries(attrs@) =~= bmc_lockdown_attrs(enable, entry, once));
        let t = if enable {
            RedfishSettingsApplyTime::OnReset
        } else {
            RedfishSettingsApplyTime::Immediate
        };
        Request::patch(self.manager_attributes(), settings(t, attrs))
    }

    /// The request that locks the BIOS.
    pub fn enable_bios_lockdown(&self) -> (r: Request)
        ensures
            r@ == self.bios_lockdown_request(true),
    {
        self.bios_lockdown(true)
    }

    /// The request that unlocks the BIOS.
    pub fn disable_bios_lockdown(&self) -> (r: Request)
        ensures
            r@ == self.bios_lockdown_request(false),
    {
        self.bios_lockdown(false)
    }

    /// The request that locks the BMC, with `entry` as the first boot device.
    pub fn enable_bmc_lockdown(&self, entry: BootDevices, once: bool) -> (r: Request)
        ensures
            r@ == self.bmc_lockdown_request(true, entry, once),
    {
        self.bmc_lockdown(true, entry, once)
    }

    /// The request that unlocks the BMC, with `entry` as the first boot device.
    pub fn disable_bmc_lockdown(&self, entry: BootDevices, once: bool) -> (r: Request)
        ensures
            r@ == self.bmc_lockdown_request(false, entry, once),
    {
        self.bmc_lockdown(false, entry, once)
    }

    /// The request that enables SSH, serial redirection and IPMI on the BMC.
    pub fn setup_bmc_remote_access(&self) -> (r: Request)
        ensures
            r@ == self.remote_access_request(),
    {
        let mut attrs: Vec<(String, JsonValue)> = Vec::new();
        str_entry(&mut attrs, "SSH.1.Enable", EnabledDisabled::Enabled.to_string());
        str_entry(&mut attrs, "SerialRedirection.1.Enable", EnabledDisabled::Enabled.to_string());
        str_entry(&mut attrs, "IPMILan.1.Enable", EnabledDisabled::Enabled.to_string());
        str_entry(&mut attrs, "IPMISOL.1.Enable", EnabledDisabled::Enabled.to_string());
        str_entry(&mut attrs, "IPMISOL.1.BaudRate", "115200".to_string());
        str_entry(&mut attrs, "IPMISOL.1.MinPrivilege", "Administrator".to_string());
        assert(view_entries(attrs@) =~= remote_access_attrs());
        Request::patch(
            self.manager_attributes(),
            settings(RedfishSettingsApplyTime::Immediate, attrs),
        )
    }

    fn bios_serial_console(&self) -> (r: Request)
        ensures
            r@ == self.serial_console_request(),
    {
        let mut attrs: Vec<(String, JsonValue)> = Vec::new();
        str_entry(&mut attrs, "SerialComm", SerialCommSettings::OnConRedir.to_string());
        str_entry(&mut attrs, "SerialPortAddress", SerialPortSettings::Com1.to_string());
        str_entry(&mut attrs, "ExtSerialConnector", SerialPortExtSettings::Serial1.to_string());
        str_entry(&mut attrs, "FailSafeBaud", "115200".to_string());
        str_entry(&mut attrs, "ConTermType", SerialPortTermSettings::Vt100Vt220.to_string());
        str_entry(&mut attrs, "RedirAfterBoot", EnabledDisabled::Enabled.to_string());
        assert(view_entries(attrs@) =~= serial_console_attrs());
        Request::patch(self.bios_settings(), settings(RedfishSettingsApplyTime::OnReset, attrs))
    }

    fn tpm(&self, security: OnOff, hierarchy: Tpm2HierarchySettings) -> (r: Request)
        ensures
            r@ == self.tpm_request(security, hierarchy),
    {
        let mut attrs: Vec<(String, JsonValue)> = Vec::new();
        str_entry(&mut attrs, "TpmSecurity", security.to_string());
        str_entry(&mut attrs, "Tpm2Hierarchy", hierarchy.to_string());
        assert(view_entries(attrs@) =~= tpm_attrs(security, hierarchy));
        Request::patch(self.bios_settings(), settings(RedfishSettingsApplyTime::OnReset, attrs))
    }

    /// The request that enables the TPM (it is enabled by default).
    pub fn enable_tpm(&self) -> (r: Request)
        ensures
            r@ == self.tpm_request(OnOff::On, Tpm2HierarchySettings::Enabled),
    {
        self.tpm(OnOff::On, Tpm2HierarchySettings::Enabled)
    }

    /// The request that disables the TPM.
    pub fn disable_tpm(&self) -> (r: Request)
        ensures
            r@ == self.tpm_request(OnOff::Off, Tpm2HierarchySettings::Disabled),
    {
        self.tpm(OnOff::Off, Tpm2HierarchySettings::Disabled)
    }

    /// The requests, in order, that lock the BIOS and the BMC ready for tenant
    /// use (`Enabled`) or reverse that (`Disabled`). They stop at the first
    /// that fails.
    pub fn lockdown(&self, target: EnabledDisabled) -> (r: Vec<Request>)
        ensures
            views(r@) == match target {
                EnabledDisabled::Enabled => seq![
                    self.delete_job_queue_request(),
                    self.bios_lockdown_request(true),
                    self.bmc_lockdown_request(true, BootDevices::PXE, false),
                ],
                EnabledDisabled::Disabled => seq![
                    self.delete_job_queue_request(),
                    self.bmc_lockdown_request(false, BootDevices::PXE, false),
                    self.bios_lockdown_request(false),
                ],
            },
    {
        let mut plan: Vec<Request> = Vec::new();
        plan.push(self.delete_job_queue());
        match target {
            EnabledDisabled::Enabled => {
                plan.push(self.enable_bios_lockdown());
                plan.push(self.enable_bmc_lockdown(BootDevices::PXE, false));
            },
            EnabledDisabled::Disabled => {
                plan.push(self.disable_bmc_lockdown(BootDevices::PXE, false));
                plan.push(self.disable_bios_lockdown());
            },
        }
        assert(views(plan@) =~= match target {
            EnabledDisabled::Enabled => seq![
                self.delete_job_queue_request(),
                self.bios_lockdown_request(true),
                self.bmc_lockdown_request(true, BootDevices::PXE, false),
            ],
            EnabledDisabled::Disabled => seq![
                self.delete_job_queue_request(),
                self.bmc_lockdown_request(false, BootDevices::PXE, false),
                self.bios_lockdown_request(false),
            ],
        });
        plan
    }

    /// The requests, in order, that enable SSH access to the console.
    pub fn setup_serial_console(&self) -> (r: Vec<Request>)
        ensures
            views(r@) == seq![
                self.delete_job_queue_request(),
                self.remote_access_request(),
                self.serial_console_request(),
            ],
    {
        let mut plan: Vec<Request> = Vec::new();
        plan.push(self.delete_job_queue());
        plan.push(self.setup_bmc_remote_access());
        plan.push(self.bios_serial_console());
        assert(views(plan@) =~= seq![
            self.delete_job_queue_request(),
            self.remote_access_request(),
            self.serial_console_request(),
        ]);
        plan
    }

    /// The request that boots `target` a single time, without changing the
    /// boot order after that.
    pub fn boot_once(&self, target: Boot) -> (r: Request)
        ensures
            r@ == self.boot_first_request(
                match target {
                    Boot::Pxe => BootDevices::PXE,
                    Boot::HardDisk => BootDevices::HDD,
                },
                true,
            ),
    {
        match target {
            Boot::Pxe => self.set_boot_first(BootDevices::PXE, true),
            Boot::HardDisk => self.set_boot_first(BootDevices::HDD, true),
        }
    }

    /// The request that changes the boot order, putting `target` first.
    pub fn boot_first(&self, target: Boot) -> (r: Request)
        ensures
            r@ == self.boot_first_request(
                match target {
                    Boot::Pxe => BootDevices::PXE,
                    Boot::HardDisk => BootDevices::HDD,
                },
                false,
            ),
    {
        match target {
            Boot::Pxe => self.set_boot_first(BootDevices::PXE, false),
            Boot::HardDisk => self.set_boot_first(BootDevices::HDD, false),
        }
    }

    /// The requests, in order, that reset and enable the TPM.
    pub fn clear_tpm(&self) -> (r: Vec<Request>)
        ensures
            views(r@) == seq![
                self.delete_job_queue_request(),
                self.tpm_request(OnOff::On, Tpm2HierarchySettings::Clear),
            ],
    {
        let mut plan: Vec<Request> = Vec::new();
        plan.push(self.delete_job_queue());
        plan.push(self.tpm(OnOff::On, Tpm2HierarchySettings::Clear));
        assert(views(plan@) =~= seq![
            self.delete_job_queue_request(),
            self.tpm_request(OnOff::On, Tpm2HierarchySettings::Clear),
        ]);
        plan
    }

    /// The request for the BIOS resource, which `lockdown_status` reads.
    pub fn bios_request(&self) -> (r: Request)
        ensures
            r@ == crate::network::get_of("Systems/"@ + self.standard().sid() + "/Bios"@),
    {
        self.s.bios_attributes()
    }

    /// The request for the iDRAC attributes, which `lockdown_status` reads.
    pub fn dell_attributes_request(&self) -> (r: Request)
        ensures
            r@ == crate::network::get_of(self.dell_attributes_path()),
    {
        Request::get(self.dell_attributes())
    }

    fn dell_attributes(&self) -> (r: String)
        ensures
            r@ == self.dell_attributes_path(),
    {
        let mut url = self.s.manager_path("/Oem/Dell/DellAttributes/");
        text::append(&mut url, self.s.manager_id());
        url
    }

    /// Whether the BIOS and the BMC are locked down, from the BIOS resource and
    /// the iDRAC attribute document.
    pub fn lockdown_status(&self, bios: &Bios, bmc: &JsonValue) -> (r: Result<
        LockdownStatus,
        RedfishError,
    >)
        ensures
            match r {
                Ok(st) => {
                    let attrs = bmc@.get("Attributes"@).unwrap();
                    let in_band = bios.attributes.in_band_manageability_interface@;
                    let uefi_var = bios.attributes.uefi_variable_access@;
                    let sl = str_member(attrs, "Lockdown.1.SystemLockdown"@);
                    let rc = str_member(attrs, "Racadm.1.Enable"@);
                    &&& bmc_attrs_readable(bmc@)
                    &&& Some(st.state()) == dell_lockdown_state(in_band, uefi_var, bmc@)
                    &&& st.message_view() == lockdown_message(in_band, uefi_var, sl, rc)
                },
                Err(e) => {
                    let url = self.dell_attributes_path();
                    let attrs = bmc@.get("Attributes"@).unwrap();
                    &&& !bmc_attrs_readable(bmc@)
                    &&& {
                        ||| !obj_member_ok(bmc@, "Attributes"@) && obj_member_error(
                            bmc@,
                            "Attributes"@,
                            url,
                            e,
                        )
                        ||| obj_member_ok(bmc@, "Attributes"@) && !str_member_ok(
                            attrs,
                            "Lockdown.1.SystemLockdown"@,
                        ) && str_member_error(attrs, "Lockdown.1.SystemLockdown"@, url, e)
                        ||| obj_member_ok(bmc@, "Attributes"@) && str_member_ok(
                            attrs,
                            "Lockdown.1.SystemLockdown"@,
                        ) && !str_member_ok(attrs, "Racadm.1.Enable"@) && str_member_error(
                            attrs,
                            "Racadm.1.Enable"@,
                            url,
                            e,
                        )
                    }
                },
            },
    {
        let enabled = EnabledDisabled::Enabled.to_string();
        let disabled = EnabledDisabled::Disabled.to_string();
        let in_band = bios.attributes.in_band_manageability_interface.as_str();
        let uefi_var = bios.attributes.uefi_variable_access.as_str();
        let mut message = text::owned("BIOS: in_band_manageability_interface=");
        text::append(&mut message, in_band);
        text::append(&mut message, ", uefi_variable_access=");
        text::append(&mut message, uefi_var);
        text::append(&mut message, ". ");
        let controlled = UefiVariableAccessSettings::Controlled.to_string();
        let standard = UefiVariableAccessSettings::Standard.to_string();
        let is_bios_locked = text::str_eq(in_band, disabled.as_str()) && text::str_eq(
            uefi_var,
            controlled.as_str(),
        );
        let is_bios_unlocked = text::str_eq(in_band, enabled.as_str()) && text::str_eq(
            uefi_var,
            standard.as_str(),
        );

        let url = self.dell_attributes();
        let attrs = obj_member_of(bmc, "Attributes", url.as_str())?;
        let system_lockdown = str_member_of(attrs, "Lockdown.1.SystemLockdown", url.as_str())?;
        let racadm = str_member_of(attrs, "Racadm.1.Enable", url.as_str())?;

        text::append(&mut message, "BMC: system_lockdown=");
        text::append(&mut message, system_lockdown.as_str());
        text::append(&mut message, ", racadm=");
        text::append(&mut message, racadm.as_str());
        text::append(&mut message, ".");

        let is_bmc_locked = text::str_eq(system_lockdown.as_str(), enabled.as_str())
            && text::str_eq(racadm.as_str(), disabled.as_str());
        let is_bmc_unlocked = text::str_eq(system_lockdown.as_str(), disabled.as_str())
            && text::str_eq(racadm.as_str(), enabled.as_str());
        let status = if is_bios_locked && is_bmc_locked {
            LockdownStatusInternal::Enabled
        } else if is_bios_unlocked && is_bmc_unlocked {
            LockdownStatusInternal::Disabled
        } else {
            LockdownStatusInternal::Partial
        };
        Ok(LockdownStatus::from_parts(status, message))
    }
}

/// The BIOS attributes that `Bios` holds, as the members of the BIOS document.
pub open spec fn bios_reported(bios: Bios) -> Seq<(Seq<char>, JsonView)> {
    seq![
        member("InBandManageabilityInterface"@, bios.attributes.in_band_manageability_interface@),
        member("UefiVariableAccess"@, bios.attributes.uefi_variable_access@),
    ]
}

/// Lockdown status reads back lockdown: when the BIOS reports every attribute
/// that `lockdown(target)` writes to the BIOS with the written value, and the
/// iDRAC attribute document reports under `Attributes` every attribute that it
/// writes to the BMC with the written value, the state that `lockdown_status`
/// finds is `Enabled` (fully locked) for `Enabled` and `Disabled` (fully
/// unlocked) for `Disabled`.
pub proof fn lemma_lockdown_status_reads_back_lockdown(
    target: EnabledDisabled,
    bios: Bios,
    doc: JsonView,
)
    requires
        holds_all(bios_reported(bios), bios_lockdown_attrs(target == EnabledDisabled::Enabled)),
        doc.get("Attributes"@) matches Some(JsonView::Object(o)) && holds_all(
            o,
            bmc_lockdown_attrs(target == EnabledDisabled::Enabled, BootDevices::PXE, false),
        ),
    ensures
        dell_lockdown_state(
            bios.attributes.in_band_manageability_interface@,
            bios.attributes.uefi_variable_access@,
            doc,
        ) == Some(
            match target {
                EnabledDisabled::Enabled => LockdownStatusInternal::Enabled,
                EnabledDisabled::Disabled => LockdownStatusInternal::Disabled,
            },
        ),
{
    let enable = target == EnabledDisabled::Enabled;
    let wb = bios_lockdown_attrs(enable);
    let wm = bmc_lockdown_attrs(enable, BootDevices::PXE, false);
    let rb = bios_reported(bios);
    let o = doc.get("Attributes"@).unwrap()->Object_0;
    reveal_strlit("InBandManageabilityInterface");
    reveal_strlit("UefiVariableAccess");
    reveal_strlit("Enabled");
    reveal_strlit("Disabled");
    reveal_strlit("Controlled");
    reveal_strlit("Standard");
    assert(lookup(rb, wb[0].0) == Some(wb[0].1));
    assert(lookup(rb, wb[1].0) == Some(wb[1].1));
    assert(rb.drop_first()[0] == rb[1]);
    assert(lookup(rb, "InBandManageabilityInterface"@) == Some(rb[0].1));
    assert("UefiVariableAccess"@ != "InBandManageabilityInterface"@) by {
        assert("UefiVariableAccess"@.len() != "InBandManageabilityInterface"@.len());
    }
    assert(lookup(rb, "UefiVariableAccess"@) == lookup(rb.drop_first(), "UefiVariableAccess"@));
    assert(lookup(o, wm[0].0) == Some(wm[0].1));
    assert(lookup(o, wm[1].0) == Some(wm[1].1));
    assert("Enabled"@ != "Disabled"@) by {
        assert("Enabled"@.len() != "Disabled"@.len());
    }
    assert("Controlled"@ != "Standard"@) by {
        assert("Controlled"@.len() != "Standard"@.len());
    }
}

/// The serial console is set up with console redirection on: the BIOS
/// request of `setup_serial_console` patches `Systems/{system_id}/Bios/Settings/`
/// with `SerialComm` set to "OnConRedir", applied on reset.
pub proof fn lemma_serial_console_redirects(bmc: Bmc)
    ensures
        bmc.serial_console_request().method == Method::Patch,
        bmc.serial_console_request().path == "Systems/"@ + bmc.standard().sid() + "/Bios/Settings/"@,
        bmc.serial_console_request().body matches Some(b) && b.get("Attributes"@) matches Some(a)
            && a.get("SerialComm"@) == Some(JsonView::String("OnConRedir"@)),
        bmc.serial_console_request().body matches Some(b) && b.get("@Redfish.SettingsApplyTime"@)
            == Some(JsonView::Object(seq![("ApplyTime"@, JsonView::String("OnReset"@))])),
{
    reveal_strlit("@Redfish.SettingsApplyTime");
    reveal_strlit("Attributes");
    assert("@Redfish.SettingsApplyTime"@.len() != "Attributes"@.len());
    let attrs = serial_console_attrs();
    let e = settings_body(RedfishSettingsApplyTime::OnReset, attrs)->Object_0;
    assert(e[0].0 != "Attributes"@);
    assert(e.drop_first()[0] == ("Attributes"@, JsonView::Object(attrs)));
    assert(crate::json::lookup(e.drop_first(), "Attributes"@) == Some(JsonView::Object(attrs)));
    assert(attrs[0] == member("SerialComm"@, "OnConRedir"@));
    assert(crate::json::lookup(attrs, "SerialComm"@) == Some(JsonView::String("OnConRedir"@)));
}

/// Dell lockdown is reported complete only when the BIOS and the BMC are both
/// locked: `Enabled` exactly when the in-band manageability interface is
/// "Disabled", UEFI variable access "Controlled", system lockdown "Enabled"
/// and racadm "Disabled"; `Disabled` exactly when all four are the reverse
/// ("Enabled", "Standard", "Disabled", "Enabled"); `Partial` otherwise.
pub proof fn lemma_dell_lockdown_state_needs_every_setting(
    in_band: Seq<char>,
    uefi_var: Seq<char>,
    system_lockdown: Seq<char>,
    racadm: Seq<char>,
)
    ensures
        (lockdown_state(in_band, uefi_var, system_lockdown, racadm) == LockdownStatusInternal::Enabled)
            <==> (in_band == "Disabled"@ && uefi_var == "Controlled"@ && system_lockdown == "Enabled"@
            && racadm == "Disabled"@),
        (lockdown_state(in_band, uefi_var, system_lockdown, racadm) == LockdownStatusInternal::Disabled)
            <==> (in_band == "Enabled"@ && uefi_var == "Standard"@ && system_lockdown == "Disabled"@
            && racadm == "Enabled"@),
{
    reveal_strlit("Disabled");
    reveal_strlit("Enabled");
    assert("Disabled"@.len() != "Enabled"@.len());
}

/// Locking a Dell server closes the host's ways in and unlocking reopens them:
/// locking sets the in-band manageability interface to "Disabled" and UEFI
/// variable access to "Controlled", system lockdown to "Enabled" and racadm to
/// "Disabled"; unlocking sets them to "Enabled", "Standard", "Disabled" and
/// "Enabled". Both leave PXE first in the boot order, not just once.
pub proof fn lemma_dell_lockdown_settings()
    ensures
        bios_lockdown_attrs(true) == seq![
            ("InBandManageabilityInterface"@, JsonView::String("Disabled"@)),
            ("UefiVariableAccess"@, JsonView::String("Controlled"@)),
        ],
        bios_lockdown_attrs(false) == seq![
            ("InBandManageabilityInterface"@, JsonView::String("Enabled"@)),
            ("UefiVariableAccess"@, JsonView::String("Standard"@)),
        ],
        bmc_lockdown_attrs(true, BootDevices::PXE, false) == seq![
            ("Lockdown.1.SystemLockdown"@, JsonView::String("Enabled"@)),
            ("Racadm.1.Enable"@, JsonView::String("Disabled"@)),
            ("ServerBoot.1.FirstBootDevice"@, JsonView::String("PXE"@)),
            ("ServerBoot.1.BootOnce"@, JsonView::String("Disabled"@)),
        ],
        bmc_lockdown_attrs(false, BootDevices::PXE, false) == seq![
            ("Lockdown.1.SystemLockdown"@, JsonView::String("Disabled"@)),
            ("Racadm.1.Enable"@, JsonView::String("Enabled"@)),
            ("ServerBoot.1.FirstBootDevice"@, JsonView::String("PXE"@)),
            ("ServerBoot.1.BootOnce"@, JsonView::String("Disabled"@)),
        ],
{
    assert(bmc_lockdown_attrs(true, BootDevices::PXE, false) =~= seq![
        ("Lockdown.1.SystemLockdown"@, JsonView::String("Enabled"@)),
        ("Racadm.1.Enable"@, JsonView::String("Disabled"@)),
        ("ServerBoot.1.FirstBootDevice"@, JsonView::String("PXE"@)),
        ("ServerBoot.1.BootOnce"@, JsonView::String("Disabled"@)),
    ]);
    assert(bmc_lockdown_attrs(false, BootDevices::PXE, false) =~= seq![
        ("Lockdown.1.SystemLockdown"@, JsonView::String("Disabled"@)),
        ("Racadm.1.Enable"@, JsonView::String("Enabled"@)),
        ("ServerBoot.1.FirstBootDevice"@, JsonView::String("PXE"@)),
        ("ServerBoot.1.BootOnce"@, JsonView::String("Disabled"@)),
    ]);
}

} // verus!
