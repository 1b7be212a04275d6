use libredfish::json::{
    deep_clone, json_eq, push_member, require_key, string_array, JsonNumber, JsonValue,
};
use libredfish::model::job::Job;
use libredfish::model::oem::lenovo::{FrontPanelUSB, FrontPanelUSBMode};
use libredfish::model::oem::supermicro::Privilege;
use libredfish::model::service_root::{RedfishVendor, ServiceRoot};
use libredfish::model::oem::hp::HpType;
use libredfish::model::thermal::{
    Fan, FansOem, FansOemHp, Temperature, TemperaturesOem, TemperaturesOemHp, Thermal,
};
use libredfish::model::{ODataId, ODataLinks, OData, SomeStatus};
use libredfish::network::{odata_path, Method, Request};
use libredfish::standard::{diff_attributes, first_member_id, RedfishStandard};
use libredfish::supermicro::Bmc as SmcBmc;
use libredfish::text;
use libredfish::{
    EnabledDisabled, LockdownStatusInternal, NetworkConfig, RedfishError, SystemPowerControl,
    Systems, REDFISH_ENDPOINT,
};

fn render(v: &JsonValue) -> String {
    match v {
        JsonValue::Null => "null".to_string(),
        JsonValue::Bool(b) => b.to_string(),
        JsonValue::Number(JsonNumber::PosInt(n)) => n.to_string(),
        JsonValue::Number(JsonNumber::NegInt(n)) => n.to_string(),
        JsonValue::Number(JsonNumber::Float(bits)) => f64::from_bits(*bits).to_string(),
        JsonValue::String(s) => format!("\"{}\"", s),
        JsonValue::Array(a) => {
            let items: Vec<String> = a.iter().map(render).collect();
            format!("[{}]", items.join(","))
        }
        JsonValue::Object(o) => {
            let items: Vec<String> =
                o.iter().map(|(k, v)| format!("\"{}\":{}", k, render(v))).collect();
            format!("{{{}}}", items.join(","))
        }
    }
}

fn s(x: &str) -> JsonValue {
    JsonValue::String(x.to_string())
}

fn obj(members: Vec<(&str, JsonValue)>) -> JsonValue {
    let mut o: Vec<(String, JsonValue)> = Vec::new();
    for (k, v) in members {
        push_member(&mut o, k, v);
    }
    JsonValue::Object(o)
}

fn config() -> NetworkConfig {
    NetworkConfig {
        endpoint: "10.0.0.1".to_string(),
        port: None,
        user: Some("root".to_string()),
        password: Some("secret".to_string()),
    }
}

fn links(id: &str) -> ODataLinks {
    ODataLinks {
        odata_context: None,
        odata_id: id.to_string(),
        odata_type: "#Thing".to_string(),
        odata_etag: None,
    }
}

fn standard(system: &str) -> RedfishStandard {
    let mut s = RedfishStandard::new(config());
    let systems = Systems {
        members: vec![ODataId { odata_id: format!("/redfish/v1/Systems/{}", system) }],
    };
    s.set_system_id(&systems);
    s
}

fn service_root(vendor: Option<&str>, product: Option<&str>) -> ServiceRoot {
    ServiceRoot {
        odata: OData::default(),
        product: product.map(|p| p.to_string()),
        redfish_version: "1.11.0".to_string(),
        vendor: vendor.map(|v| v.to_string()),
        uuid: None,
        oem: None,
        update_service: None,
        account_service: None,
        certificate_service: None,
        chassis: None,
        event_service: None,
        license_service: None,
        fabrics: None,
        managers: None,
        session_service: None,
        systems: None,
        tasks: None,
        telemetry_service: None,
    }
}

fn status(health: Option<&str>, state: Option<&str>) -> SomeStatus {
    SomeStatus { health: health.map(|h| h.to_string()), state: state.map(|s| s.to_string()) }
}

#[test]
fn test_supermicro_service_root() {
    let root = service_root(Some("Supermicro"), None);
    assert_eq!(root.vendor().unwrap(), RedfishVendor::Supermicro);
}

#[test]
fn vendor_is_compared_in_lower_case() {
    assert_eq!(service_root(Some("DELL"), None).vendor(), Some(RedfishVendor::Dell));
    assert_eq!(service_root(Some("Lenovo"), None).vendor(), Some(RedfishVendor::Lenovo));
    assert_eq!(service_root(Some("HPE"), None).vendor(), Some(RedfishVendor::Hpe));
    assert_eq!(service_root(Some("AMI"), None).vendor(), Some(RedfishVendor::AMI));
    assert_eq!(service_root(Some("Contoso"), None).vendor(), Some(RedfishVendor::Unknown));
    assert_eq!(service_root(None, None).vendor(), None);
}

#[test]
fn nvidia_product_p3809_is_gh200() {
    assert_eq!(
        service_root(Some("NVIDIA"), Some("P3809")).vendor(),
        Some(RedfishVendor::NvidiaGH200)
    );
    assert_eq!(
        service_root(Some("Nvidia"), Some("BlueField")).vendor(),
        Some(RedfishVendor::NvidiaDpu)
    );
}

#[test]
fn vendor_falls_back_to_the_oem_key() {
    let mut root = service_root(None, None);
    let mut oem: Vec<(String, JsonValue)> = Vec::new();
    push_member(&mut oem, "Supermicro", obj(vec![]));
    root.oem = Some(oem);
    assert_eq!(root.vendor_string(), Some("Supermicro".to_string()));
    assert_eq!(root.vendor(), Some(RedfishVendor::Supermicro));
    assert_eq!(RedfishVendor::Supermicro.to_string(), "Supermicro");
}

#[test]
fn first_member_id_is_the_last_segment() {
    let members = vec![
        ODataId { odata_id: "/redfish/v1/Systems/System.Embedded.1".to_string() },
        ODataId { odata_id: "/redfish/v1/Systems/Other".to_string() },
    ];
    assert_eq!(first_member_id(&members), "System.Embedded.1");
    assert_eq!(first_member_id(&Vec::new()), "1");
}

#[test]
fn standard_paths_use_the_system_id() {
    let s = standard("1");
    assert_eq!(s.system_id(), "1");
    assert_eq!(s.manager_id(), "");
    assert_eq!(s.system_path("/Bios"), "Systems/1/Bios");
    assert_eq!(s.chassis_path("/Power"), "Chassis/1/Power");
    let r = s.get_system();
    assert_eq!(r.method, Method::Get);
    assert_eq!(r.path, "Systems/1/");
    assert!(r.body.is_none());
}

#[test]
fn power_posts_the_reset_type() {
    let s = standard("1");
    let r = s.power(SystemPowerControl::GracefulRestart);
    assert_eq!(r.method, Method::Post);
    assert_eq!(r.path, "Systems/1/Actions/ComputerSystem.Reset");
    assert_eq!(render(r.body.as_ref().unwrap()), "{\"ResetType\":\"GracefulRestart\"}");
    assert_eq!(SystemPowerControl::ForceOff.to_string(), "ForceOff");
}

#[test]
fn storage_paths_spell_the_numbers() {
    let s = standard("1");
    assert_eq!(s.get_array_controller(3).path, "Systems/1/SmartStorage/ArrayControllers/3/");
    assert_eq!(
        s.get_physical_drive(12, 0).path,
        "Systems/1/SmartStorage/ArrayControllers/0/DiskDrives/12/"
    );
    assert_eq!(
        s.get_storage_enclosure(1, 2).path,
        "Systems/1/SmartStorage/ArrayControllers/1/StorageEnclosures/2/"
    );
    assert_eq!(s.get_thermal_status().path, "Chassis/1/Thermal/");
}

#[test]
fn u64_decimal_text() {
    assert_eq!(text::u64_to_string(0), "0");
    assert_eq!(text::u64_to_string(1907), "1907");
    assert_eq!(text::u64_to_string(u64::MAX), "18446744073709551615");
    assert_eq!(text::bool_to_string(true), "true");
}

#[test]
fn text_search_and_replace() {
    assert!(text::starts_with("UEFI PXEv4 (MAC:01)", "UEFI PXEv4"));
    assert!(!text::starts_with("UEFI", "UEFI PXEv4"));
    assert!(text::contains("Chassis_BMC_0", "BMC"));
    assert!(!text::contains("Chassis_0", "BMC"));
    assert_eq!(text::replace("aa:bb:cc", ":", ""), "aabbcc");
    assert_eq!(text::last_segment_of("/redfish/v1/Systems/1", '/'), "1");
    assert_eq!(text::last_segment_of("plain", '/'), "plain");
    assert!(text::compare_sign_lt("Intel", "Mellanox"));
    assert!(!text::compare_sign_lt("Mellanox", "Intel"));
}

#[test]
fn odata_path_strips_the_endpoint() {
    assert_eq!(REDFISH_ENDPOINT, "redfish/v1");
    assert_eq!(odata_path("/redfish/v1/Chassis/1/Sensors/Temp1"), "Chassis/1/Sensors/Temp1");
}

#[test]
fn json_lookup_and_equality() {
    let doc = obj(vec![("A", s("x")), ("B", JsonValue::Bool(true)), ("A", s("y"))]);
    assert_eq!(doc.get("A").and_then(|v| v.as_str()).map(|v| v.as_str()), Some("x"));
    assert_eq!(doc.get("B").and_then(|v| v.as_bool()), Some(true));
    assert!(doc.get("C").is_none());
    let copy = deep_clone(&doc);
    assert!(json_eq(&doc, &copy));
    assert!(!json_eq(&doc, &obj(vec![("A", s("x"))])));
    assert_eq!(
        render(&string_array(&vec!["a".to_string(), "b".to_string()])),
        "[\"a\",\"b\"]"
    );
}

#[test]
fn missing_key_names_key_and_url() {
    let doc = obj(vec![("A", s("x"))]);
    match require_key(&doc, "Members", "Systems") {
        Err(RedfishError::MissingKey { key, url }) => {
            assert_eq!(key, "Members");
            assert_eq!(url, "Systems");
        }
        other => panic!("unexpected {:?}", other),
    }
}

#[test]
fn pending_lists_the_changed_attributes() {
    let pending = obj(vec![(
        "Attributes",
        obj(vec![("BootMode", s("Uefi")), ("SriovGlobalEnable", s("Enabled"))]),
    )]);
    let current = obj(vec![(
        "Attributes",
        obj(vec![("BootMode", s("Uefi")), ("SriovGlobalEnable", s("Disabled"))]),
    )]);
    let d = RedfishStandard::pending(&pending, &current);
    assert_eq!(d.len(), 1);
    assert_eq!(d[0].0, "SriovGlobalEnable");
    assert_eq!(render(&d[0].1), "\"Enabled\"");
}

#[test]
fn applied_attributes_are_not_pending() {
    let attrs = obj(vec![("BootMode", s("Uefi")), ("Tpm", s("On"))]);
    let current = obj(vec![("Tpm", s("On")), ("BootMode", s("Uefi")), ("Other", s("x"))]);
    let list = match attrs {
        JsonValue::Object(o) => o,
        _ => unreachable!(),
    };
    assert!(diff_attributes(&list, &current).is_empty());
}

#[test]
fn pending_attributes_errors() {
    let current = obj(vec![("Attributes", obj(vec![]))]);
    match RedfishStandard::pending_attributes(&obj(vec![]), &current, "Systems/1/Bios/SD") {
        Err(RedfishError::MissingKey { key, url }) => {
            assert_eq!(key, "Attributes");
            assert_eq!(url, "Systems/1/Bios/SD");
        }
        other => panic!("unexpected {:?}", other),
    }
    let bad = obj(vec![("Attributes", s("nope"))]);
    match RedfishStandard::pending_attributes(&bad, &current, "u") {
        Err(RedfishError::InvalidKeyType { key, expected_type, .. }) => {
            assert_eq!(key, "Attributes");
            assert_eq!(expected_type, "Object");
        }
        other => panic!("unexpected {:?}", other),
    }
    let ok = obj(vec![("Attributes", obj(vec![("A", s("1"))]))]);
    assert_eq!(RedfishStandard::pending_attributes(&ok, &current, "u").unwrap().len(), 1);
}

#[test]
fn lockdown_status_predicates_are_exclusive() {
    let on = SmcBmc::lockdown_status(false, Privilege::Callback, true);
    assert!(on.is_fully_locked() && !on.is_fully_unlocked() && !on.is_partially_locked());
    let off = SmcBmc::lockdown_status(true, Privilege::Administrator, false);
    assert!(off.is_fully_unlocked() && !off.is_fully_locked() && !off.is_partially_locked());
    let part = SmcBmc::lockdown_status(true, Privilege::Callback, true);
    assert!(part.is_partially_locked() && !part.is_fully_locked());
    assert_eq!(
        part.message(),
        "SysLockdownEnabled=true, kcs_privilege=Callback, host_interface_enabled=true"
    );
    let _ = LockdownStatusInternal::Partial;
}

#[test]
fn front_panel_usb_mode_round_trip() {
    for m in [FrontPanelUSBMode::Server, FrontPanelUSBMode::Shared] {
        assert_eq!(FrontPanelUSBMode::from_str(&m.to_string()).unwrap(), m);
    }
    assert!(FrontPanelUSBMode::from_str("Nope").is_err());
    let fp = FrontPanelUSB::new(0, "Off".to_string(), "Server".to_string(), FrontPanelUSBMode::Shared);
    assert_eq!(fp.fp_mode(), FrontPanelUSBMode::Shared);
}

#[test]
fn privilege_round_trip() {
    for p in [Privilege::Administrator, Privilege::Operator, Privilege::User, Privilege::Callback] {
        assert_eq!(Privilege::from_str(&p.to_string()), Some(p));
    }
    assert_eq!(Privilege::from_str("root"), None);
}

#[test]
fn enabled_disabled_text() {
    assert_eq!(EnabledDisabled::Enabled.to_string(), "Enabled");
    assert_eq!(EnabledDisabled::Disabled.to_string(), "Disabled");
    assert!(EnabledDisabled::Enabled.is_enabled());
    assert!(!EnabledDisabled::Disabled.is_enabled());
}

#[test]
fn thermal_statuses_fans_then_temperatures() {
    let fan = Fan {
        current_reading: 30,
        fan_name: "Fan 1".to_string(),
        oem: FansOem { hp: FansOemHp { fan_type: HpType { odata_type: "#HpServerFan".to_string() }, location: "System".to_string() } },
        status: status(Some("OK"), Some("Enabled")),
        units: "Percent".to_string(),
    };
    let temp = Temperature {
        current_reading: 40,
        name: "Inlet".to_string(),
        number: 1,
        lower_threshold_critical: None,
        lower_threshold_fatal: None,
        oem: TemperaturesOem { hp: TemperaturesOemHp { temp_type: HpType { odata_type: "#HpSeaSensor".to_string() }, location_xmm: 1, location_ymm: 2 } },
        physical_context: "Intake".to_string(),
        reading_celsius: 40,
        status: status(None, Some("Absent")),
        units: "Celsius".to_string(),
        upper_threshold_critical: 42,
        upper_threshold_fatal: 50,
    };
    let thermal = Thermal {
        odata: links("/redfish/v1/Chassis/1/Thermal"),
        fans: vec![fan],
        id: "Thermal".to_string(),
        name: "Thermal".to_string(),
        temperatures: vec![temp],
        thermal_type: "Thermal".to_string(),
    };
    assert_eq!(
        thermal.get_vec(),
        vec![
            ("OK".to_string(), "Enabled".to_string()),
            ("".to_string(), "Absent".to_string())
        ]
    );
}

#[test]
fn job_as_task() {
    let job = Job {
        odata: links("/redfish/v1/Managers/1/Jobs/JID_1"),
        id: None,
        name: Some("Configure".to_string()),
        percent_complete: Some(50),
        job_state: Some("Running".to_string()),
    };
    let t = job.as_task();
    assert_eq!(t.id, "");
    assert_eq!(t.name.as_deref(), Some("Configure"));
    assert_eq!(t.task_state.as_deref(), Some("Running"));
    assert_eq!(t.percent_complete, Some(50));
    assert!(t.task_status.is_none());
    assert_eq!(t.messages.map(|m| m.len()), Some(0));
    assert_eq!(t.odata.odata_id, "/redfish/v1/Managers/1/Jobs/JID_1");
}

#[test]
fn request_builders_keep_their_parts() {
    let r = Request::patch("a".to_string(), obj(vec![("k", JsonValue::Null)]));
    assert_eq!(r.method, Method::Patch);
    assert_eq!(r.path, "a");
    assert_eq!(render(r.body.as_ref().unwrap()), "{\"k\":null}");
    assert_eq!(r.timeout_secs, None);
}

#[test]
fn negative_zero_equals_zero() {
    let zero = JsonValue::Number(JsonNumber::Float(0.0f64.to_bits()));
    let neg = JsonValue::Number(JsonNumber::Float((-0.0f64).to_bits()));
    assert!(json_eq(&zero, &neg));
    assert!(!json_eq(&zero, &JsonValue::Number(JsonNumber::Float(1.0f64.to_bits()))));
    assert!(!json_eq(&zero, &JsonValue::Number(JsonNumber::PosInt(0))));
    let pending = obj(vec![("Attributes", obj(vec![("X", neg)]))]);
    let current = obj(vec![("Attributes", obj(vec![("X", zero)]))]);
    assert!(RedfishStandard::pending(&pending, &current).is_empty());
}
