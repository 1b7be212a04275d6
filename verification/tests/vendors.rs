use libredfish::json::{push_member, JsonNumber, JsonValue};
use libredfish::manager::{Commandshell, Managers};
use libredfish::model::account_service::ManagerAccount;
use libredfish::model::oem::dell::{Bios as DellBios, BiosAttributes as DellBiosAttributes, BootDevices};
use libredfish::model::oem::lenovo::{BootOptionName as LenovoBootOptionName, BootSource};
use libredfish::model::oem::supermicro::Privilege;
use libredfish::model::secure_boot::{SecureBoot, SecureBootMode};
use libredfish::model::update_service::UpdateService;
use libredfish::model::{BootOption, ODataId, ODataLinks, PCIeDevice, SomeStatus};
use libredfish::network::{Method, Request};
use libredfish::nvidia_gbx00::{BootOptionMatchField, BootOptionName as GbBootOptionName, ThermalSource};
use libredfish::standard::RedfishStandard;
use libredfish::supermicro::{get_members, LockdownStep, PasswordChangeStep};
use libredfish::{dell, hpe, lenovo, nvidia, nvidia_gbx00, supermicro};
use libredfish::{Boot, EnabledDisabled, NetworkConfig, RedfishError, SystemPowerControl, Systems};

fn render(v: &JsonValue) -> String {
    match v {
        JsonValue::Null => "null".to_string(),
        JsonValue::Bool(b) => b.to_string(),
        JsonValue::Number(JsonNumber::PosInt(n)) => n.to_string(),
        JsonValue::Number(JsonNumber::NegInt(n)) => n.to_string(),
        JsonValue::Number(JsonNumber::Float(bits)) => f64::from_bits(*bits).to_string(),
        JsonValue::String(s) => format!("\"{}\"", s),
        JsonValue::Array(a) => {
            let items: Vec<String> = a.iter().map(render).collect();
            format!("[{}]", items.join(","))
        }
        JsonValue::Object(o) => {
            let items: Vec<String> =
                o.iter().map(|(k, v)| format!("\"{}\":{}", k, render(v))).collect();
            format!("{{{}}}", items.join(","))
        }
    }
}

fn line(r: &Request) -> String {
    let m = match r.method {
        Method::Get => "GET",
        Method::Post => "POST",
        Method::Patch => "PATCH",
        Method::Delete => "DELETE",
    };
    match &r.body {
        Some(b) => format!("{} {} {}", m, r.path, render(b)),
        None => format!("{} {}", m, r.path),
    }
}

fn s(x: &str) -> JsonValue {
    JsonValue::String(x.to_string())
}

fn obj(members: Vec<(&str, JsonValue)>) -> JsonValue {
    let mut o: Vec<(String, JsonValue)> = Vec::new();
    for (k, v) in members {
        push_member(&mut o, k, v);
    }
    JsonValue::Object(o)
}

fn odata(id: &str) -> JsonValue {
    obj(vec![("@odata.id", s(id))])
}

fn standard(system: &str, manager: &str) -> RedfishStandard {
    let config = NetworkConfig {
        endpoint: "10.0.0.1".to_string(),
        port: Some(443),
        user: None,
        password: None,
    };
    let mut st = RedfishStandard::new(config);
    st.set_system_id(&Systems {
        members: vec![ODataId { odata_id: format!("/redfish/v1/Systems/{}", system) }],
    });
    st.set_manager_id(&Managers {
        odata: ODataLinks {
            odata_context: None,
            odata_id: "/redfish/v1/Managers".to_string(),
            odata_type: "#ManagerCollection.ManagerCollection".to_string(),
            odata_etag: None,
        },
        description: "Managers".to_string(),
        members: vec![ODataId { odata_id: format!("/redfish/v1/Managers/{}", manager) }],
        name: "Manager Collection".to_string(),
    });
    st
}

fn option(id: &str, name: &str, display: &str, path: Option<&str>) -> BootOption {
    BootOption {
        id: id.to_string(),
        name: name.to_string(),
        display_name: display.to_string(),
        uefi_device_path: path.map(|p| p.to_string()),
    }
}

fn account(id: &str, username: &str) -> ManagerAccount {
    ManagerAccount {
        id: id.to_string(),
        username: username.to_string(),
        name: "User Account".to_string(),
        description: "User Account".to_string(),
        role_id: "Administrator".to_string(),
        enabled: true,
        locked: false,
    }
}

fn device(id: Option<&str>, manufacturer: Option<&str>, state: Option<&str>) -> PCIeDevice {
    PCIeDevice {
        id: id.map(|x| x.to_string()),
        name: None,
        manufacturer: manufacturer.map(|x| x.to_string()),
        status: Some(SomeStatus { health: None, state: state.map(|x| x.to_string()) }),
    }
}

// ---- Dell ----

fn dell_bmc() -> dell::Bmc {
    dell::Bmc::new(standard("System.Embedded.1", "iDRAC.Embedded.1")).unwrap()
}

#[test]
fn dell_lockdown_enable_requests() {
    let plan = dell_bmc().lockdown(EnabledDisabled::Enabled);
    let lines: Vec<String> = plan.iter().map(line).collect();
    assert_eq!(
        lines,
        vec![
            "POST Managers/iDRAC.Embedded.1/Oem/Dell/DellJobService/Actions/DellJobService.DeleteJobQueue {\"JobID\":\"JID_CLEARALL\"}".to_string(),
            "PATCH Systems/System.Embedded.1/Bios/Settings/ {\"@Redfish.SettingsApplyTime\":{\"ApplyTime\":\"OnReset\"},\"Attributes\":{\"InBandManageabilityInterface\":\"Disabled\",\"UefiVariableAccess\":\"Controlled\"}}".to_string(),
            "PATCH Managers/iDRAC.Embedded.1/Attributes {\"@Redfish.SettingsApplyTime\":{\"ApplyTime\":\"OnReset\"},\"Attributes\":{\"Lockdown.1.SystemLockdown\":\"Enabled\",\"Racadm.1.Enable\":\"Disabled\",\"ServerBoot.1.FirstBootDevice\":\"PXE\",\"ServerBoot.1.BootOnce\":\"Disabled\"}}".to_string(),
        ]
    );
}

#[test]
fn dell_lockdown_disable_unlocks_bmc_first_and_at_once() {
    let plan = dell_bmc().lockdown(EnabledDisabled::Disabled);
    assert_eq!(plan.len(), 3);
    assert_eq!(
        line(&plan[1]),
        "PATCH Managers/iDRAC.Embedded.1/Attributes {\"@Redfish.SettingsApplyTime\":{\"ApplyTime\":\"Immediate\"},\"Attributes\":{\"Lockdown.1.SystemLockdown\":\"Disabled\",\"Racadm.1.Enable\":\"Enabled\",\"ServerBoot.1.FirstBootDevice\":\"PXE\",\"ServerBoot.1.BootOnce\":\"Disabled\"}}"
    );
    assert_eq!(
        line(&plan[2]),
        "PATCH Systems/System.Embedded.1/Bios/Settings/ {\"@Redfish.SettingsApplyTime\":{\"ApplyTime\":\"OnReset\"},\"Attributes\":{\"InBandManageabilityInterface\":\"Enabled\",\"UefiVariableAccess\":\"Standard\"}}"
    );
}

#[test]
fn dell_boot_once_and_first() {
    let b = dell_bmc();
    assert_eq!(
        line(&b.boot_once(Boot::HardDisk)),
        "PATCH Managers/iDRAC.Embedded.1/Attributes {\"@Redfish.SettingsApplyTime\":{\"ApplyTime\":\"OnReset\"},\"Attributes\":{\"ServerBoot.1.FirstBootDevice\":\"HDD\",\"ServerBoot.1.BootOnce\":\"Enabled\"}}"
    );
    assert!(line(&b.boot_first(Boot::Pxe)).contains("\"ServerBoot.1.FirstBootDevice\":\"PXE\",\"ServerBoot.1.BootOnce\":\"Disabled\""));
    assert!(line(&b.set_boot_first(BootDevices::BIOS, true)).contains("\"BIOS\""));
}

#[test]
fn dell_clear_tpm_and_serial_console() {
    let b = dell_bmc();
    let tpm = b.clear_tpm();
    assert_eq!(tpm.len(), 2);
    assert_eq!(
        line(&tpm[1]),
        "PATCH Systems/System.Embedded.1/Bios/Settings/ {\"@Redfish.SettingsApplyTime\":{\"ApplyTime\":\"OnReset\"},\"Attributes\":{\"TpmSecurity\":\"On\",\"Tpm2Hierarchy\":\"Clear\"}}"
    );
    let serial = b.setup_serial_console();
    assert_eq!(serial.len(), 3);
    assert!(line(&serial[1]).starts_with("PATCH Managers/iDRAC.Embedded.1/Attributes {\"@Redfish.SettingsApplyTime\":{\"ApplyTime\":\"Immediate\"},\"Attributes\":{\"SSH.1.Enable\":\"Enabled\""));
    assert!(line(&serial[2]).contains("\"FailSafeBaud\":\"115200\""));
}

fn dell_bios(in_band: &str, uefi: &str) -> DellBios {
    DellBios {
        attributes: DellBiosAttributes {
            in_band_manageability_interface: in_band.to_string(),
            uefi_variable_access: uefi.to_string(),
        },
    }
}

#[test]
fn dell_lockdown_status_reads_back_lockdown() {
    let b = dell_bmc();
    let bmc = obj(vec![(
        "Attributes",
        obj(vec![
            ("Lockdown.1.SystemLockdown", s("Enabled")),
            ("Racadm.1.Enable", s("Disabled")),
        ]),
    )]);
    let st = b.lockdown_status(&dell_bios("Disabled", "Controlled"), &bmc).unwrap();
    assert!(st.is_fully_locked());
    assert_eq!(
        st.message(),
        "BIOS: in_band_manageability_interface=Disabled, uefi_variable_access=Controlled. BMC: system_lockdown=Enabled, racadm=Disabled."
    );
    let partial = b.lockdown_status(&dell_bios("Enabled", "Standard"), &bmc).unwrap();
    assert!(partial.is_partially_locked());
}

#[test]
fn dell_lockdown_status_errors() {
    let b = dell_bmc();
    match b.lockdown_status(&dell_bios("Enabled", "Standard"), &obj(vec![])) {
        Err(RedfishError::MissingKey { key, url }) => {
            assert_eq!(key, "Attributes");
            assert_eq!(url, "Managers/iDRAC.Embedded.1/Oem/Dell/DellAttributes/iDRAC.Embedded.1");
        }
        other => panic!("unexpected {:?}", other),
    }
    let no_racadm = obj(vec![("Attributes", obj(vec![("Lockdown.1.SystemLockdown", s("Enabled"))]))]);
    match b.lockdown_status(&dell_bios("Enabled", "Standard"), &no_racadm) {
        Err(RedfishError::MissingKey { key, .. }) => assert_eq!(key, "Racadm.1.Enable"),
        other => panic!("unexpected {:?}", other),
    }
}

// ---- Lenovo ----

fn lenovo_bmc() -> lenovo::Bmc {
    lenovo::Bmc::new(standard("1", "1")).unwrap()
}

#[test]
fn lenovo_lockdown_requests() {
    let plan = lenovo_bmc().lockdown(EnabledDisabled::Enabled);
    let lines: Vec<String> = plan.iter().map(line).collect();
    assert_eq!(
        lines,
        vec![
            "PATCH Managers/1 {\"Oem\":{\"Lenovo\":{\"KCSEnabled\":false}}}".to_string(),
            "PATCH Managers/1/Oem/Lenovo/Security {\"Configurator\":{\"FWRollback\":\"Disabled\"}}".to_string(),
            "PATCH Managers/1/EthernetInterfaces/ToHost {\"InterfaceEnabled\":false}".to_string(),
            "PATCH Systems/1 {\"Oem\":{\"Lenovo\":{\"FrontPanelUSB\":{\"FPMode\":\"Server\"}}}}".to_string(),
        ]
    );
    let undo = lenovo_bmc().lockdown(EnabledDisabled::Disabled);
    assert_eq!(line(&undo[3]), "PATCH Systems/1 {\"Oem\":{\"Lenovo\":{\"FrontPanelUSB\":{\"FPMode\":\"Shared\"}}}}");
}

#[test]
fn lenovo_boot_once_overrides_once() {
    assert_eq!(
        line(&lenovo_bmc().boot_once(Boot::Pxe)),
        "PATCH Systems/1 {\"Boot\":{\"BootSourceOverrideEnabled\":\"Once\",\"BootSourceOverrideTarget\":\"Pxe\"}}"
    );
    assert_eq!(BootSource::NoSource.to_string(), "None");
}

#[test]
fn lenovo_boot_order_with_network_first() {
    let options = vec![
        option("Boot0001", "HardDisk", "Disk", None),
        option("Boot0002", "Network", "PXE 1", None),
        option("Boot0003", "Network", "PXE 2", None),
        option("Boot0004", "CD", "CD", None),
    ];
    let ids = lenovo::Bmc::get_boot_options_ids_with_first(LenovoBootOptionName::Network, &options).unwrap();
    assert_eq!(ids, vec!["Boot0003", "Boot0001", "Boot0002", "Boot0004"]);
    let r = lenovo_bmc().boot_first(Boot::Pxe, &options).unwrap();
    assert_eq!(r.timeout_secs, Some(10));
    assert_eq!(
        line(&r),
        "PATCH Systems/1/Pending {\"Boot\":{\"BootOrder\":[\"Boot0003\",\"Boot0001\",\"Boot0002\",\"Boot0004\"]}}"
    );
}

#[test]
fn lenovo_missing_boot_option() {
    let options = vec![option("Boot0001", "Network", "PXE", None)];
    assert!(lenovo::Bmc::get_boot_options_ids_with_first(LenovoBootOptionName::HardDisk, &options).is_none());
    match lenovo_bmc().boot_first(Boot::HardDisk, &options) {
        Err(RedfishError::MissingBootOption(n)) => assert_eq!(n, "HardDisk"),
        other => panic!("unexpected {:?}", other),
    }
}

// ---- Supermicro ----

fn smc_bmc() -> supermicro::Bmc {
    supermicro::Bmc::new(standard("1", "1")).unwrap()
}

#[test]
fn supermicro_get_members_takes_last_segments() {
    let body = obj(vec![(
        "Members",
        JsonValue::Array(vec![odata("/redfish/v1/Chassis/1"), odata("/redfish/v1/Chassis/HA-RAID")]),
    )]);
    assert_eq!(get_members(&body, "Chassis").unwrap(), vec!["1", "HA-RAID"]);
    match get_members(&obj(vec![]), "Chassis") {
        Err(RedfishError::MissingKey { key, url }) => {
            assert_eq!(key, "Members");
            assert_eq!(url, "Chassis");
        }
        other => panic!("unexpected {:?}", other),
    }
    let bad = obj(vec![("Members", JsonValue::Array(vec![s("x")]))]);
    match get_members(&bad, "Chassis") {
        Err(RedfishError::InvalidKeyType { key, expected_type, .. }) => {
            assert_eq!(key, "Members");
            assert_eq!(expected_type, "Vec<ODataId>");
        }
        other => panic!("unexpected {:?}", other),
    }
}

#[test]
fn supermicro_lockdown_steps() {
    let plan = smc_bmc().lockdown(EnabledDisabled::Enabled);
    assert_eq!(plan.len(), 3);
    assert!(matches!(plan[0], LockdownStep::SetHostInterfaces(EnabledDisabled::Disabled)));
    match &plan[1] {
        LockdownStep::Send(r) => assert_eq!(
            line(r),
            "PATCH Managers/1/Oem/Supermicro/KCSInterface {\"Privilege\":\"Callback\"}"
        ),
        other => panic!("unexpected {:?}", other),
    }
    match &plan[2] {
        LockdownStep::Send(r) => assert_eq!(
            line(r),
            "PATCH Managers/1/Oem/Supermicro/SysLockdown {\"SysLockdownEnabled\":true}"
        ),
        other => panic!("unexpected {:?}", other),
    }
    let undo = smc_bmc().lockdown(EnabledDisabled::Disabled);
    assert!(matches!(undo[2], LockdownStep::SetHostInterfaces(EnabledDisabled::Enabled)));
}

#[test]
fn supermicro_reads_back_lockdown() {
    let b = smc_bmc();
    let kcs = b.get_kcs_privilege(&obj(vec![("Privilege", s("Callback"))])).unwrap();
    let lock = b.get_syslockdown(&obj(vec![("SysLockdownEnabled", JsonValue::Bool(true))])).unwrap();
    let hi = b.is_host_interface_enabled("1", &obj(vec![("InterfaceEnabled", JsonValue::Bool(false))])).unwrap();
    assert!(supermicro::Bmc::lockdown_status(hi, kcs, lock).is_fully_locked());
    match b.get_kcs_privilege(&obj(vec![("Privilege", s("Root"))])) {
        Err(RedfishError::InvalidKeyType { expected_type, url, .. }) => {
            assert_eq!(expected_type, "oem::supermicro::Privilege");
            assert_eq!(url, "Managers/1/Oem/Supermicro/KCSInterface");
        }
        other => panic!("unexpected {:?}", other),
    }
    assert_eq!(Privilege::Callback.to_string(), "Callback");
}

#[test]
fn supermicro_single_host_interface() {
    let b = smc_bmc();
    let one = obj(vec![("Members", JsonValue::Array(vec![odata("/redfish/v1/Managers/1/HostInterfaces/1")]))]);
    assert_eq!(b.single_host_interface(&one).unwrap(), "1");
    let two = obj(vec![(
        "Members",
        JsonValue::Array(vec![odata("/redfish/v1/Managers/1/HostInterfaces/1"), odata("/redfish/v1/Managers/1/HostInterfaces/2")]),
    )]);
    match b.single_host_interface(&two) {
        Err(RedfishError::InvalidValue { url, field, err }) => {
            assert_eq!(url, "Managers/1/HostInterfaces");
            assert_eq!(field, "Members");
            assert_eq!(err.0, "Expected a single host interface, found 2");
        }
        other => panic!("unexpected {:?}", other),
    }
    match b.single_host_interface(&obj(vec![])) {
        Err(RedfishError::MissingKey { key, url }) => {
            assert_eq!(key, "Members");
            assert_eq!(url, "Managers/1/HostInterfaces");
        }
        other => panic!("unexpected {:?}", other),
    }
    let reqs = b.set_host_interfaces(&vec!["1".to_string(), "2".to_string()], EnabledDisabled::Enabled);
    assert_eq!(line(&reqs[1]), "PATCH Managers/1/HostInterfaces/2 {\"InterfaceEnabled\":true}");
}

#[test]
fn supermicro_set_tpms_selects_only_changed_devices() {
    let b = smc_bmc();
    let attrs = obj(vec![
        ("DeviceSelect#0001", s("dTPM")),
        ("DeviceSelect#0002", s("fTPM")),
        ("Other", s("x")),
    ]);
    let r = b.set_tpms("fTPM", &attrs).unwrap();
    assert_eq!(line(&r), "PATCH Systems/1/Bios {\"Attributes\":{\"DeviceSelect#0001\":\"fTPM\"}}");
    assert!(matches!(b.set_tpms("fTPM", &s("x")), Err(RedfishError::InvalidKeyType { .. })));
}

#[test]
fn supermicro_boot_override() {
    let b = smc_bmc();
    assert_eq!(
        line(&b.boot_once(Boot::Pxe)),
        "PATCH Systems/1 {\"Boot\":{\"BootSourceOverrideTarget\":\"Pxe\",\"BootSourceOverrideEnabled\":\"Once\",\"BootSourceOverrideMode\":\"UEFI\"}}"
    );
    assert!(line(&b.boot_first(Boot::HardDisk)).contains("\"Hdd\",\"BootSourceOverrideEnabled\":\"Continuous\""));
}

#[test]
fn supermicro_pending_without_attributes_is_empty() {
    let b = smc_bmc();
    let current = obj(vec![("Attributes", obj(vec![("A", s("1"))]))]);
    assert!(b.pending(&obj(vec![]), &current).unwrap().is_empty());
    let pending = obj(vec![("Attributes", obj(vec![("A", s("2"))]))]);
    assert_eq!(b.pending(&pending, &current).unwrap().len(), 1);
    match b.pending(&obj(vec![("Attributes", s("x"))]), &current) {
        Err(RedfishError::InvalidKeyType { url, .. }) => assert_eq!(url, "Systems/1/Bios/SD"),
        other => panic!("unexpected {:?}", other),
    }
}

#[test]
fn supermicro_not_supported_calls() {
    let b = smc_bmc();
    assert!(matches!(b.clear_tpm(), Err(RedfishError::NotSupported(_))));
    assert!(matches!(b.change_uefi_password("a", "b"), Err(RedfishError::NotSupported(_))));
    assert!(matches!(supermicro::Bmc::first_chassis(&Vec::new()), Err(RedfishError::NoContent)));
    assert_eq!(supermicro::Bmc::first_chassis(&vec!["1".to_string(), "2".to_string()]).unwrap(), "1");
}

#[test]
fn supermicro_serial_console_status() {
    let shell = Commandshell {
        connect_types_supported: vec!["SSH".to_string()],
        enabled: None,
        max_concurrent_sessions: 1,
        service_enabled: true,
    };
    assert!(supermicro::Bmc::serial_console_status(&shell, true).is_fully_locked());
    assert!(supermicro::Bmc::serial_console_status(&shell, false).is_fully_unlocked());
}

#[test]
fn supermicro_change_password_steps() {
    let ids = vec!["2".to_string(), "3".to_string()];
    match supermicro::Bmc::change_password_step(&ids, &Vec::new(), "admin", "pw").unwrap() {
        PasswordChangeStep::FetchAccount(r) => assert_eq!(line(&r), "GET AccountService/Accounts/2"),
        other => panic!("unexpected {:?}", other),
    }
    let fetched = vec![account("2", "root"), account("3", "admin")];
    match supermicro::Bmc::change_password_step(&ids, &fetched, "admin", "pw").unwrap() {
        PasswordChangeStep::Change(r) => assert_eq!(line(&r), "PATCH AccountService/Accounts/3 {\"Password\":\"pw\"}"),
        other => panic!("unexpected {:?}", other),
    }
    match supermicro::Bmc::change_password_step(&ids, &fetched, "nobody", "pw") {
        Err(RedfishError::UserNotFound(u)) => assert_eq!(u, "nobody"),
        other => panic!("unexpected {:?}", other),
    }
    assert_eq!(line(&smc_bmc().accounts_request()), "GET AccountService/Accounts");
}

// ---- GB200 ----

fn gb_bmc() -> nvidia_gbx00::Bmc {
    nvidia_gbx00::Bmc::new(standard("System_0", "BMC_0")).unwrap()
}

#[test]
fn gbx00_boot_first_moves_matches_first_reversed() {
    let options = vec![
        option("Boot0000", "a", "UEFI PXEv4 (MAC:1)", None),
        option("Boot0001", "b", "ubuntu", Some("HD(1,GPT)")),
        option("Boot0002", "c", "UEFI PXEv4 (MAC:2)", None),
    ];
    let ids = nvidia_gbx00::Bmc::get_boot_options_ids_with_first(
        GbBootOptionName::Pxe,
        BootOptionMatchField::DisplayName,
        None,
        &options,
    );
    assert_eq!(ids, vec!["Boot0002", "Boot0000", "Boot0001"]);
    assert_eq!(
        line(&gb_bmc().boot_first(Boot::HardDisk, &options)),
        "PATCH Systems/System_0/Settings {\"Boot\":{\"BootOrder\":[\"Boot0001\",\"Boot0000\",\"Boot0002\"]}}"
    );
}

#[test]
fn gbx00_boot_once_path_keeps_trailing_space() {
    assert_eq!(
        line(&gb_bmc().boot_once(Boot::Pxe)),
        "PATCH Systems/System_0/Settings  {\"Boot\":{\"BootSourceOverrideEnabled\":\"Once\",\"BootSourceOverrideTarget\":\"Pxe\"}}"
    );
}

#[test]
fn gbx00_dpu_boot_option_name() {
    assert_eq!(
        nvidia_gbx00::Bmc::dpu_boot_option_name(Some("b8:3f:d2:90:95:82")).unwrap(),
        "UEFI HTTPv4 (MAC:B83FD2909582)"
    );
    assert!(matches!(nvidia_gbx00::Bmc::dpu_boot_option_name(None), Err(RedfishError::NotSupported(_))));
}

#[test]
fn gbx00_machine_setup_and_policy() {
    let sb = SecureBoot {
        odata: ODataLinks {
            odata_context: None,
            odata_id: "/redfish/v1/Systems/System_0/SecureBoot".to_string(),
            odata_type: "#SecureBoot.v1_1_0.SecureBoot".to_string(),
            odata_etag: None,
        },
        id: "SecureBoot".to_string(),
        name: "UEFI Secure Boot".to_string(),
        secure_boot_current_boot: EnabledDisabled::Enabled,
        secure_boot_enable: true,
        secure_boot_mode: SecureBootMode::DeployedMode,
    };
    let st = nvidia_gbx00::Bmc::machine_setup_status(&sb);
    assert!(!st.is_done);
    assert_eq!(st.diffs.len(), 1);
    assert_eq!(st.diffs[0].key, "SecureBoot");
    assert_eq!(
        line(&gb_bmc().set_machine_password_policy()),
        "PATCH AccountService {\"AccountLockoutThreshold\":0,\"AccountLockoutDuration\":600}"
    );
    assert!(gb_bmc().lockdown().is_empty());
}

#[test]
fn gbx00_sensor_paths_and_pcie_filters() {
    let members = vec![
        ODataId { odata_id: "/redfish/v1/Chassis/BMC_0/Sensors/Temp_1".to_string() },
        ODataId { odata_id: "/redfish/v1/Chassis/BMC_0/Sensors/FAN_1".to_string() },
    ];
    assert_eq!(nvidia_gbx00::Bmc::sensor_paths(&members, "Temp"), vec!["Chassis/BMC_0/Sensors/Temp_1"]);
    assert!(!nvidia_gbx00::Bmc::pcie_chassis_wanted("BMC_0"));
    assert!(nvidia_gbx00::Bmc::pcie_chassis_wanted("Chassis_0"));
    assert!(nvidia_gbx00::Bmc::pcie_device_wanted(&device(Some("1"), None, Some("Enabled"))));
    assert!(!nvidia_gbx00::Bmc::pcie_device_wanted(&device(Some("1"), None, Some("Absent"))));
    assert!(!nvidia_gbx00::Bmc::pcie_device_wanted(&device(None, None, Some("Enabled"))));
}

#[test]
fn gbx00_sort_by_manufacturer() {
    let sorted = nvidia_gbx00::Bmc::sort_by_manufacturer(vec![
        device(Some("a"), Some("Nvidia"), None),
        device(Some("b"), None, None),
        device(Some("c"), Some("Mellanox"), None),
    ]);
    let order: Vec<Option<String>> = sorted.iter().map(|d| d.id.clone()).collect();
    assert_eq!(order, vec![Some("b".to_string()), Some("c".to_string()), Some("a".to_string())]);
}

#[test]
fn gbx00_multipart_push_uri() {
    let mut us = UpdateService::default();
    assert!(nvidia_gbx00::Bmc::multipart_push_uri(&us).is_err());
    us.multipart_http_push_uri = "/redfish/v1/UpdateService/update-multipart".to_string();
    assert_eq!(
        nvidia_gbx00::Bmc::multipart_push_uri(&us).unwrap(),
        "/redfish/v1/UpdateService/update-multipart"
    );
}

// ---- HPE and Nvidia DPU ----

#[test]
fn hpe_and_dpu_paths() {
    let h = hpe::Bmc::new(standard("1", "1")).unwrap();
    assert_eq!(
        line(&h.power(SystemPowerControl::On)),
        "POST Systems/1/Actions/ComputerSystem.Reset {\"ResetType\":\"On\"}"
    );
    let d = nvidia::Bmc::new(standard("Bluefield", "Bluefield_BMC")).unwrap();
    assert_eq!(line(&d.get_ports("Card1")), "GET Chassis/Card1/NetworkAdapters/NvidiaNetworkAdapter/Ports");
}

#[test]
fn gbx00_power_sensor_roles() {
    let r = nvidia_gbx00::Bmc::power_sensor_roles("PDB_0", "/redfish/v1/Chassis/PDB_0/Sensors/HSC_0_Pwr");
    assert!(r.hsc0_power && !r.hsc0_current && !r.hsc1_power && !r.hsc1_current && !r.voltage);
    let other = nvidia_gbx00::Bmc::power_sensor_roles("Chassis_0", "/redfish/v1/Chassis/Chassis_0/Sensors/HSC_0_Pwr");
    assert!(!other.hsc0_power);
    let v = nvidia_gbx00::Bmc::power_sensor_roles("Chassis_0", "/redfish/v1/Chassis/Chassis_0/Sensors/Volt_12V");
    assert!(v.voltage && !v.hsc1_current);
    assert_eq!(line(&nvidia_gbx00::Bmc::power_supply_request()), "GET Chassis/PDB_0");
}

#[test]
fn gbx00_thermal_sources() {
    let all = nvidia_gbx00::Bmc::thermal_sources("Chassis_0", true, true);
    let names: Vec<String> = all
        .iter()
        .map(|s| match s {
            ThermalSource::Temperatures(r) => format!("T {}", r.path),
            ThermalSource::LeakDetectors(r) => format!("L {}", r.path),
            ThermalSource::TemperatureSensors(r) => format!("S {}", r.path),
            ThermalSource::FanSensors(r) => format!("F {}", r.path),
        })
        .collect();
    assert_eq!(
        names,
        vec![
            "T Chassis/Chassis_0/ThermalSubsystem/ThermalMetrics",
            "L Chassis/Chassis_0/ThermalSubsystem/LeakDetection/LeakDetectors",
            "S Chassis/Chassis_0/Sensors",
            "F Chassis/Chassis_0/Sensors",
        ]
    );
    assert!(nvidia_gbx00::Bmc::thermal_sources("BMC_0", false, false).is_empty());
    let members = vec![ODataId { odata_id: "/redfish/v1/Chassis/Chassis_0/ThermalSubsystem/LeakDetection/LeakDetectors/A".to_string() }];
    assert_eq!(
        nvidia_gbx00::Bmc::member_paths(&members),
        vec!["Chassis/Chassis_0/ThermalSubsystem/LeakDetection/LeakDetectors/A"]
    );
}

#[test]
fn lenovo_unlock_changes_what_lock_changes() {
    let on = lenovo_bmc().lockdown(EnabledDisabled::Enabled);
    let off = lenovo_bmc().lockdown(EnabledDisabled::Disabled);
    assert_eq!(on.len(), off.len());
    for (a, b) in on.iter().zip(off.iter()) {
        assert_eq!(a.method, b.method);
        assert_eq!(a.path, b.path);
        assert_ne!(render(a.body.as_ref().unwrap()), render(b.body.as_ref().unwrap()));
    }
}

#[test]
fn gbx00_boot_order_keeps_every_option() {
    let options = vec![
        option("Boot0000", "a", "UEFI HTTPv4 (MAC:1)", None),
        option("Boot0001", "b", "x", None),
        option("Boot0002", "c", "UEFI HTTPv4 (MAC:2)", None),
        option("Boot0003", "d", "y", None),
    ];
    let mut ids = nvidia_gbx00::Bmc::get_boot_options_ids_with_first(
        GbBootOptionName::Http,
        BootOptionMatchField::DisplayName,
        Some("UEFI HTTPv4 (MAC:2)"),
        &options,
    );
    assert_eq!(ids[0], "Boot0002");
    ids.sort();
    assert_eq!(ids, vec!["Boot0000", "Boot0001", "Boot0002", "Boot0003"]);
}

#[test]
fn standard_collection_requests() {
    let st = standard("1", "1");
    assert_eq!(line(&st.get_chassis_all()), "GET Chassis/");
    assert_eq!(line(&st.get_update_service()), "GET UpdateService");
}

#[test]
fn dell_tpm_requests() {
    let b = dell_bmc();
    assert!(line(&b.enable_tpm()).ends_with("\"Attributes\":{\"TpmSecurity\":\"On\",\"Tpm2Hierarchy\":\"Enabled\"}}"));
    assert!(line(&b.disable_tpm()).ends_with("\"Attributes\":{\"TpmSecurity\":\"Off\",\"Tpm2Hierarchy\":\"Disabled\"}}"));
}

#[test]
fn gbx00_dpu_first_and_event_log() {
    let options = vec![
        option("Boot0000", "a", "UEFI PXEv4 (MAC:1)", None),
        option("Boot0001", "b", "UEFI HTTPv4 (MAC:B83FD2909582)", None),
    ];
    assert_eq!(
        line(&gb_bmc().set_boot_order_dpu_first("UEFI HTTPv4 (MAC:B83FD2909582)", &options)),
        "PATCH Systems/System_0/Settings {\"Boot\":{\"BootOrder\":[\"Boot0001\",\"Boot0000\"]}}"
    );
    assert_eq!(line(&gb_bmc().get_system_event_log()), "GET Systems/System_0/LogServices/SEL/Entries");
    assert_eq!(
        line(&gb_bmc().get_port("Chassis_0", "NIC_0", "Port_0")),
        "GET Chassis/Chassis_0/NetworkAdapters/NIC_0/Ports/Port_0"
    );
}

#[test]
fn dpu_network_device_functions() {
    let d = nvidia::Bmc::new(standard("Bluefield", "Bluefield_BMC")).unwrap();
    assert_eq!(
        line(&d.get_network_device_functions("Card1")),
        "GET Chassis/Card1/NetworkAdapters/NvidiaNetworkAdapter/NetworkDeviceFunctions"
    );
    assert_eq!(
        line(&d.get_network_device_function("Card1", "eth0")),
        "GET Chassis/Card1/NetworkAdapters/NvidiaNetworkAdapter/NetworkDeviceFunctions/eth0"
    );
    let h = hpe::Bmc::new(standard("1", "1")).unwrap();
    assert_eq!(line(&h.get_bios_attributes()), "GET Systems/1/Bios");
}

#[test]
fn lower_case_helpers_take_the_case_mapped_text() {
    assert_eq!(
        libredfish::model::service_root::vendor_from_lowercase("nvidia", &Some("P3809".to_string())),
        libredfish::model::service_root::RedfishVendor::NvidiaGH200
    );
    assert_eq!(
        libredfish::model::service_root::vendor_from_lowercase("Dell", &None),
        libredfish::model::service_root::RedfishVendor::Unknown
    );
    assert_eq!(nvidia_gbx00::Bmc::http_boot_option_name("B83FD2909582"), "UEFI HTTPv4 (MAC:B83FD2909582)");
    assert!(nvidia_gbx00::Bmc::state_enabled("standbyenabled"));
    assert!(!nvidia_gbx00::Bmc::state_enabled("Enabled"));
}

#[test]
fn lenovo_boot_order_keeps_options_sharing_the_name() {
    let options = vec![
        option("Boot0001", "Network", "PXE 1", None),
        option("Boot0002", "HardDisk", "Disk", None),
        option("Boot0003", "Network", "PXE 2", None),
    ];
    let ids = lenovo::Bmc::get_boot_options_ids_with_first(LenovoBootOptionName::Network, &options).unwrap();
    assert_eq!(ids, vec!["Boot0003", "Boot0001", "Boot0002"]);
}

#[test]
fn gbx00_power_assembly() {
    let pdb = obj(vec![("Name", s("PDB")), ("PowerOutputWatts", JsonValue::Null)]);
    let mut m = nvidia_gbx00::PowerAssembly::new(&pdb);
    let pwr = obj(vec![
        ("Reading", JsonValue::Number(JsonNumber::PosInt(350))),
        ("ReadingRangeMax", JsonValue::Number(JsonNumber::PosInt(1000))),
    ]);
    let roles = nvidia_gbx00::Bmc::power_sensor_roles("PDB_0", "/redfish/v1/Chassis/PDB_0/Sensors/HSC_1_Pwr");
    m = m.apply_reading(roles, &pwr);
    let volt = obj(vec![("Reading", JsonValue::Number(JsonNumber::PosInt(12)))]);
    let roles = nvidia_gbx00::Bmc::power_sensor_roles("Chassis_0", "/redfish/v1/Chassis/Chassis_0/Sensors/Volt_12V");
    m = m.apply_reading(roles, &volt);
    let supplies = m.power_supplies();
    assert_eq!(render(&supplies[0]), "{\"Name\":\"PDB\",\"PowerOutputWatts\":null}");
    assert_eq!(
        render(&supplies[1]),
        "{\"Name\":\"PDB\",\"PowerOutputWatts\":350,\"LastPowerOutputWatts\":350,\"PowerCapacityWatts\":1000}"
    );
    assert_eq!(m.voltages.len(), 1);
    assert_eq!(render(&m.voltages[0]), "{\"Reading\":12}");
}
