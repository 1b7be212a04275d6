//! Nvidia GB200 (OpenBMC) servers.

use vstd::prelude::*;

use crate::error::{is_not_supported, RedfishError};
use crate::json::{
    deep_clone, member_or_null, member_or_null_of, push_element, push_member, string_array,
    view_entries, view_values, with_member, with_member_set, JsonNumber, JsonValue, JsonView,
};
use crate::model::boot::{BootSourceOverrideEnabled, BootSourceOverrideTarget};
use crate::model::secure_boot::SecureBoot;
use crate::model::update_service::UpdateService;
use crate::model::{BootOption, MachineSetupDiff, MachineSetupStatus, ODataId, PCIeDevice};
use crate::network::{get_of, odata_path, odata_path_of, patch_of, Request, RequestView};
use crate::standard::RedfishStandard;
use crate::text;
use crate::Boot;

verus! {

/// A one-member object.
pub open spec fn obj1(key: Seq<char>, value: JsonView) -> JsonView {
    JsonView::Object(seq![(key, value)])
}

/// The kind of boot option to put first, named by the start of its display
/// name or of its UEFI device path.
#[derive(Clone, Copy, Debug, PartialEq, Eq, Structural)]
pub enum BootOptionName {
    Http,
    Pxe,
    Hdd,
}

impl BootOptionName {
    pub open spec fn text(self) -> Seq<char> {
        match self {
            BootOptionName::Http => "UEFI HTTPv4"@,
            BootOptionName::Pxe => "UEFI PXEv4"@,
            BootOptionName::Hdd => "HD("@,
        }
    }

    /// The start of the name that identifies the boot option.
    pub fn to_string(self) -> (r: &'static str)
        ensures
            r@ == self.text(),
    {
        match self {
            BootOptionName::Http => "UEFI HTTPv4",
            BootOptionName::Pxe => "UEFI PXEv4",
            BootOptionName::Hdd => "HD(",
        }
    }
}

/// Which field of a boot option is matched.
#[derive(Clone, Copy, Debug, PartialEq, Eq, Structural)]
pub enum BootOptionMatchField {
    DisplayName,
    UefiDevicePath,
}

/// The option's field starts with `name`.
pub open spec fn option_matches(o: BootOption, field: BootOptionMatchField, name: Seq<char>) -> bool {
    match field {
        BootOptionMatchField::DisplayName => text::is_prefix_of(name, o.display_name@),
        BootOptionMatchField::UefiDevicePath => o.uefi_device_path matches Some(p) && text::is_prefix_of(
            name,
            p@,
        ),
    }
}

pub open spec fn matching(field: BootOptionMatchField, name: Seq<char>) -> spec_fn(BootOption) -> bool {
    |o: BootOption| option_matches(o, field, name)
}

pub open spec fn not_matching(field: BootOptionMatchField, name: Seq<char>) -> spec_fn(BootOption) -> bool {
    |o: BootOption| !option_matches(o, field, name)
}

/// The ids of some options, in order.
pub open spec fn ids_of(opts: Seq<BootOption>) -> Seq<Seq<char>> {
    opts.map_values(|o: BootOption| o.id@)
}

/// The boot order with the matching options first: the ids of the matching
/// options in reverse order, then the ids of the others in their order.
pub open spec fn boot_order_with_first(
    opts: Seq<BootOption>,
    field: BootOptionMatchField,
    name: Seq<char>,
) -> Seq<Seq<char>> {
    ids_of(opts.filter(matching(field, name))).reverse() + ids_of(
        opts.filter(not_matching(field, name)),
    )
}

/// Splitting the options into the matching ones and the others keeps every id,
/// each as often as before.
proof fn lemma_split_keeps_ids(opts: Seq<BootOption>, field: BootOptionMatchField, name: Seq<char>)
    ensures
        ids_of(opts.filter(matching(field, name))).to_multiset().add(
            ids_of(opts.filter(not_matching(field, name))).to_multiset(),
        ) =~= ids_of(opts).to_multiset(),
    decreases opts.len(),
{
    broadcast use vstd::seq_lib::group_to_multiset_ensures;
    broadcast use vstd::multiset::group_multiset_axioms;

    let m = matching(field, name);
    let nm = not_matching(field, name);
    if opts.len() == 0 {
        assert(opts.filter(m) =~= opts);
        assert(opts.filter(nm) =~= opts);
        assert(ids_of(opts) =~= Seq::<Seq<char>>::empty());
    } else {
        let init = opts.drop_last();
        let o = opts.last();
        lemma_split_keeps_ids(init, field, name);
        assert(init.push(o) =~= opts);
        init.lemma_filter_push(o, m);
        init.lemma_filter_push(o, nm);
        assert(ids_of(opts) =~= ids_of(init).push(o.id@));
        if option_matches(o, field, name) {
            assert(ids_of(opts.filter(m)) =~= ids_of(init.filter(m)).push(o.id@));
            assert(opts.filter(nm) == init.filter(nm));
        } else {
            assert(ids_of(opts.filter(nm)) =~= ids_of(init.filter(nm)).push(o.id@));
            assert(opts.filter(m) == init.filter(m));
        }
    }
}

/// Moving the matching options to the front of the boot order keeps every
/// option's id in it, each as often as before: the new order is a
/// rearrangement of the options.
pub proof fn lemma_boot_order_is_rearrangement(
    opts: Seq<BootOption>,
    field: BootOptionMatchField,
    name: Seq<char>,
)
    ensures
        boot_order_with_first(opts, field, name).to_multiset() =~= ids_of(opts).to_multiset(),
        boot_order_with_first(opts, field, name).len() == opts.len(),
{
    broadcast use vstd::seq_lib::group_to_multiset_ensures;

    let a = ids_of(opts.filter(matching(field, name)));
    let b = ids_of(opts.filter(not_matching(field, name)));
    a.lemma_reverse_to_multiset();
    vstd::seq_lib::lemma_multiset_commutative(a.reverse(), b);
    lemma_split_keeps_ids(opts, field, name);
    let r = boot_order_with_first(opts, field, name);
    assert(r.to_multiset().len() == r.len());
    assert(ids_of(opts).to_multiset().len() == ids_of(opts).len());
}

/// Which options `boot_first` moves ahead: for PXE, those whose display name
/// starts with `UEFI PXEv4`; for a hard disk, those whose UEFI device path
/// starts with `HD(`; for the DPU's HTTP boot, those whose display name starts
/// with `UEFI HTTPv4`. The moved options come first, the last of them first,
/// and every other option follows in its order.
pub proof fn lemma_boot_first_moves_named_options(opts: Seq<BootOption>)
    ensures
        boot_order_with_first(opts, BootOptionMatchField::DisplayName, BootOptionName::Pxe.text())
            == ids_of(opts.filter(|o: BootOption| text::is_prefix_of("UEFI PXEv4"@, o.display_name@))).reverse()
            + ids_of(opts.filter(|o: BootOption| !text::is_prefix_of("UEFI PXEv4"@, o.display_name@))),
        boot_order_with_first(opts, BootOptionMatchField::UefiDevicePath, BootOptionName::Hdd.text())
            == ids_of(
            opts.filter(
                |o: BootOption| o.uefi_device_path matches Some(p) && text::is_prefix_of("HD("@, p@),
            ),
        ).reverse() + ids_of(
            opts.filter(
                |o: BootOption| !(o.uefi_device_path matches Some(p) && text::is_prefix_of("HD("@, p@)),
            ),
        ),
        BootOptionName::Http.text() == "UEFI HTTPv4"@,
{
    let pxe = |o: BootOption| text::is_prefix_of("UEFI PXEv4"@, o.display_name@);
    let not_pxe = |o: BootOption| !text::is_prefix_of("UEFI PXEv4"@, o.display_name@);
    assert(matching(BootOptionMatchField::DisplayName, BootOptionName::Pxe.text()) =~= pxe);
    assert(not_matching(BootOptionMatchField::DisplayName, BootOptionName::Pxe.text()) =~= not_pxe);
    let hd = |o: BootOption| o.uefi_device_path matches Some(p) && text::is_prefix_of("HD("@, p@);
    let not_hd = |o: BootOption| !(o.uefi_device_path matches Some(p) && text::is_prefix_of("HD("@, p@));
    assert(matching(BootOptionMatchField::UefiDevicePath, BootOptionName::Hdd.text()) =~= hd);
    assert(not_matching(BootOptionMatchField::UefiDevicePath, BootOptionName::Hdd.text()) =~= not_hd);
}

/// The text of a list of strings.
pub open spec fn strings_view(v: Seq<String>) -> Seq<Seq<char>> {
    v.map_values(|s: String| s@)
}

/// The display name of the HTTP boot option of the NIC whose MAC address,
/// as the name writes it, is `mac`.
pub open spec fn http_boot_option_text(mac: Seq<char>) -> Seq<char> {
    BootOptionName::Http.text() + " (MAC:"@ + mac + ")"@
}

/// The display name of the HTTP boot option of the NIC with the MAC address
/// `address`: its colons removed, in upper case.
pub open spec fn dpu_boot_option_text(address: Seq<char>) -> Seq<char> {
    http_boot_option_text(text::uppercase(text::replace_all(address, ":"@, Seq::empty())))
}

/// The order of manufacturers: a device without one comes first, the others
/// by the lexicographic order of the name.
pub open spec fn manufacturer_lt(a: Option<String>, b: Option<String>) -> bool {
    match (a, b) {
        (None, Some(_)) => true,
        (Some(x), Some(y)) => text::lex_lt(x@, y@),
        _ => false,
    }
}

/// The devices are in manufacturer order.
pub open spec fn sorted_by_manufacturer(v: Seq<PCIeDevice>) -> bool {
    forall|i: int, j: int|
        0 <= i < j < v.len() ==> !manufacturer_lt(#[trigger] v[j].manufacturer, #[trigger] v[i].manufacturer)
}

/// The PCIe devices of a chassis are listed, unless it is the BMC's.
pub open spec fn chassis_wanted(chassis_id: Seq<char>) -> bool {
    !text::contains_seq(chassis_id, "BMC"@)
}

/// A PCIe device is listed when it has an id and a status whose state, in
/// lower case, contains `enabled`.
pub open spec fn device_wanted(p: PCIeDevice) -> bool {
    &&& p.id is Some
    &&& p.status matches Some(st)
    &&& st.state matches Some(state)
    &&& text::contains_seq(text::lowercase(state@), "enabled"@)
}

proof fn lemma_manufacturer_lt_transitive(a: Option<String>, b: Option<String>, c: Option<String>)
    requires
        manufacturer_lt(a, b),
        manufacturer_lt(b, c),
    ensures
        manufacturer_lt(a, c),
{
    if a is Some {
        text::lemma_lex_lt_transitive(a->0@, b->0@, c->0@);
    }
}

/// Whether `a` comes before `b` in manufacturer order.
fn manufacturer_less(a: &Option<String>, b: &Option<String>) -> (r: bool)
    ensures
        r == manufacturer_lt(*a, *b),
{
    match a {
        None => b.is_some(),
        Some(x) => match b {
            None => false,
            Some(y) => text::compare_sign_lt(x.as_str(), y.as_str()),
        },
    }
}

/// What a sensor is read for in the power metrics: the power or the current
/// of either hot swap controller of the power distribution board, or a voltage.
#[derive(Clone, Copy, Debug, PartialEq, Eq, Structural)]
pub struct PowerSensorRoles {
    pub hsc0_power: bool,
    pub hsc0_current: bool,
    pub hsc1_power: bool,
    pub hsc1_current: bool,
    pub voltage: bool,
}

/// The roles of a sensor: those of the hot swap controllers only on `PDB_0`,
/// each named by a part of the sensor's `@odata.id`; a voltage on any chassis.
pub open spec fn power_roles_of(chassis_id: Seq<char>, odata_id: Seq<char>) -> PowerSensorRoles {
    let pdb = chassis_id == "PDB_0"@;
    PowerSensorRoles {
        hsc0_power: pdb && text::contains_seq(odata_id, "HSC_0_Pwr"@),
        hsc0_current: pdb && text::contains_seq(odata_id, "HSC_0_Cur"@),
        hsc1_power: pdb && text::contains_seq(odata_id, "HSC_1_Pwr"@),
        hsc1_current: pdb && text::contains_seq(odata_id, "HSC_1_Cur"@),
        voltage: text::contains_seq(odata_id, "Volt"@),
    }
}

/// The power supplies and voltage sensors gathered so far: the two hot swap
/// controllers' supply documents (both built from the power distribution
/// board's document) and the voltage sensor documents, in the order read.
#[derive(Debug)]
pub struct PowerAssembly {
    pub hsc0: JsonValue,
    pub hsc1: JsonValue,
    pub voltages: Vec<JsonValue>,
}

/// The model of the power metrics gathered so far.
pub struct PowerAssemblyView {
    pub hsc0: JsonView,
    pub hsc1: JsonView,
    pub voltages: Seq<JsonView>,
}

impl View for PowerAssembly {
    type V = PowerAssemblyView;

    open spec fn view(&self) -> PowerAssemblyView {
        PowerAssemblyView { hsc0: self.hsc0@, hsc1: self.hsc1@, voltages: view_values(self.voltages@) }
    }
}

/// A supply after a power sensor is read: the last and current output watts
/// become the sensor's reading, the capacity its range maximum (`null` where
/// the sensor has none).
pub open spec fn supply_with_power(supply: JsonView, sensor: JsonView) -> JsonView {
    let reading = member_or_null(sensor, "Reading"@);
    with_member(
        with_member(with_member(supply, "LastPowerOutputWatts"@, reading), "PowerOutputWatts"@, reading),
        "PowerCapacityWatts"@,
        member_or_null(sensor, "ReadingRangeMax"@),
    )
}

/// A supply after a current sensor is read: the output amps become the
/// sensor's reading.
pub open spec fn supply_with_current(supply: JsonView, sensor: JsonView) -> JsonView {
    with_member(supply, "PowerOutputAmps"@, member_or_null(sensor, "Reading"@))
}

/// The power metrics after reading a sensor with the given roles.
pub open spec fn power_step(s: PowerAssemblyView, roles: PowerSensorRoles, sensor: JsonView) -> PowerAssemblyView {
    let h0 = if roles.hsc0_power { supply_with_power(s.hsc0, sensor) } else { s.hsc0 };
    let h0 = if roles.hsc0_current { supply_with_current(h0, sensor) } else { h0 };
    let h1 = if roles.hsc1_power { supply_with_power(s.hsc1, sensor) } else { s.hsc1 };
    let h1 = if roles.hsc1_current { supply_with_current(h1, sensor) } else { h1 };
    PowerAssemblyView {
        hsc0: h0,
        hsc1: h1,
        voltages: if roles.voltage { s.voltages.push(sensor) } else { s.voltages },
    }
}

fn with_power(supply: JsonValue, sensor: &JsonValue) -> (r: JsonValue)
    ensures
        r@ == supply_with_power(supply@, sensor@),
{
    let reading = member_or_null_of(sensor, "Reading");
    let a = with_member_set(supply, "LastPowerOutputWatts", deep_clone(&reading));
    let b = with_member_set(a, "PowerOutputWatts", reading);
    with_member_set(b, "PowerCapacityWatts", member_or_null_of(sensor, "ReadingRangeMax"))
}

fn with_current(supply: JsonValue, sensor: &JsonValue) -> (r: JsonValue)
    ensures
        r@ == supply_with_current(supply@, sensor@),
{
    with_member_set(supply, "PowerOutputAmps", member_or_null_of(sensor, "Reading"))
}

impl PowerAssembly {
    /// The start: both supplies are the power distribution board's document,
    /// and no voltage sensor is read yet.
    pub fn new(pdb: &JsonValue) -> (r: PowerAssembly)
        ensures
            r@ == (PowerAssemblyView { hsc0: pdb@, hsc1: pdb@, voltages: Seq::empty() }),
    {
        let r = PowerAssembly { hsc0: deep_clone(pdb), hsc1: deep_clone(pdb), voltages: Vec::new() };
        assert(view_values(r.voltages@) =~= Seq::<JsonView>::empty()) by {
            crate::json::lemma_view_values(r.voltages@);
        }
        r
    }

    /// The metrics after reading the sensor document `sensor`, which has the
    /// roles `roles` (see `Bmc::power_sensor_roles`).
    pub fn apply_reading(self, roles: PowerSensorRoles, sensor: &JsonValue) -> (r: PowerAssembly)
        ensures
            r@ == power_step(self@, roles, sensor@),
    {
        let PowerAssembly { hsc0, hsc1, voltages } = self;
        let h0 = if roles.hsc0_power { with_power(hsc0, sensor) } else { hsc0 };
        let h0 = if roles.hsc0_current { with_current(h0, sensor) } else { h0 };
        let h1 = if roles.hsc1_power { with_power(hsc1, sensor) } else { hsc1 };
        let h1 = if roles.hsc1_current { with_current(h1, sensor) } else { h1 };
        let mut voltages = voltages;
        if roles.voltage {
            push_element(&mut voltages, deep_clone(sensor));
        }
        PowerAssembly { hsc0: h0, hsc1: h1, voltages }
    }

    /// The power supplies: the first hot swap controller's, then the second's.
    pub fn power_supplies(&self) -> (r: Vec<JsonValue>)
        ensures
            view_values(r@) == seq![self@.hsc0, self@.hsc1],
    {
        let mut r: Vec<JsonValue> = Vec::new();
        push_element(&mut r, deep_clone(&self.hsc0));
        push_element(&mut r, deep_clone(&self.hsc1));
        assert(view_values(r@) =~= seq![self@.hsc0, self@.hsc1]) by {
            crate::json::lemma_view_values(r@);
        }
        r
    }
}

/// A place the thermal metrics are read from: a thermal metrics document, a
/// leak detector collection, or a sensor collection read for its temperature
/// sensors or for its fans.
#[derive(Debug)]
pub enum ThermalSource {
    Temperatures(Request),
    LeakDetectors(Request),
    TemperatureSensors(Request),
    FanSensors(Request),
}

/// The model of a thermal source.
pub enum ThermalSourceView {
    Temperatures(RequestView),
    LeakDetectors(RequestView),
    TemperatureSensors(RequestView),
    FanSensors(RequestView),
}

impl View for ThermalSource {
    type V = ThermalSourceView;

    open spec fn view(&self) -> ThermalSourceView {
        match self {
            ThermalSource::Temperatures(r) => ThermalSourceView::Temperatures(r@),
            ThermalSource::LeakDetectors(r) => ThermalSourceView::LeakDetectors(r@),
            ThermalSource::TemperatureSensors(r) => ThermalSourceView::TemperatureSensors(r@),
            ThermalSource::FanSensors(r) => ThermalSourceView::FanSensors(r@),
        }
    }
}

pub open spec fn thermal_source_views(s: Seq<ThermalSource>) -> Seq<ThermalSourceView> {
    s.map_values(|x: ThermalSource| x@)
}

/// The thermal sources of a chassis, in the order they are read.
pub open spec fn thermal_sources_of(chassis_id: Seq<char>, has_thermal: bool, has_sensors: bool) -> Seq<
    ThermalSourceView,
> {
    let base = "Chassis/"@ + chassis_id;
    let sensors = get_of(base + "/Sensors"@);
    (if has_thermal {
        seq![
            ThermalSourceView::Temperatures(get_of(base + "/ThermalSubsystem/ThermalMetrics"@)),
            ThermalSourceView::LeakDetectors(
                get_of(base + "/ThermalSubsystem/LeakDetection/LeakDetectors"@),
            ),
        ]
    } else {
        Seq::empty()
    }) + (if has_sensors {
        seq![ThermalSourceView::TemperatureSensors(sensors)]
    } else {
        Seq::empty()
    }) + (if chassis_id == "Chassis_0"@ {
        seq![ThermalSourceView::FanSensors(sensors)]
    } else {
        Seq::empty()
    })
}

/// A GB200 server.
#[derive(Debug)]
pub struct Bmc {
    s: RedfishStandard,
}

impl Bmc {
    pub closed spec fn standard(&self) -> RedfishStandard {
        self.s
    }

    pub open spec fn sid(&self) -> Seq<char> {
        self.standard().sid()
    }

    pub fn new(s: RedfishStandard) -> (r: Result<Bmc, RedfishError>)
        ensures
            r matches Ok(b) && b.standard() == s,
    {
        Ok(Bmc { s })
    }

    /// The connection this server is reached through.
    pub fn standard_ref(&self) -> (r: &RedfishStandard)
        ensures
            *r == self.standard(),
    {
        &self.s
    }

    /// The boot option ids with the matching options first; the order of the
    /// others does not change. The options match on `match_field` starting with
    /// `with_name_str`, or with `with_name`'s text when that is `None`.
    pub fn get_boot_options_ids_with_first(
        with_name: BootOptionName,
        match_field: BootOptionMatchField,
        with_name_str: Option<&str>,
        options: &Vec<BootOption>,
    ) -> (r: Vec<String>)
        ensures
            strings_view(r@) == boot_order_with_first(
                options@,
                match_field,
                match with_name_str {
                    Some(s) => s@,
                    None => with_name.text(),
                },
            ),
    {
        let name_str = match with_name_str {
            Some(s) => s,
            None => with_name.to_string(),
        };
        let ghost name = name_str@;
        let ghost m = matching(match_field, name);
        let ghost nm = not_matching(match_field, name);
        let mut ordered: Vec<String> = Vec::new();
        let n = options.len();
        for i in 0..n
            invariant
                n == options@.len(),
                name == name_str@,
                m == matching(match_field, name),
                nm == not_matching(match_field, name),
                strings_view(ordered@) == ids_of(options@.take(i as int).filter(m)).reverse()
                    + ids_of(options@.take(i as int).filter(nm)),
        {
            let b = &options[i];
            let is_match = match match_field {
                BootOptionMatchField::DisplayName => text::starts_with(b.display_name.as_str(), name_str),
                BootOptionMatchField::UefiDevicePath => match &b.uefi_device_path {
                    Some(x) => text::starts_with(x.as_str(), name_str),
                    None => false,
                },
            };
            assert(is_match == option_matches(options@[i as int], match_field, name));
            let ghost pre = options@.take(i as int);
            assert(options@.take(i + 1) =~= pre.push(options@[i as int]));
            proof {
                pre.lemma_filter_push(options@[i as int], m);
                pre.lemma_filter_push(options@[i as int], nm);
            }
            let ghost before = strings_view(ordered@);
            if is_match {
                ordered.insert(0, b.id.clone());
                assert(strings_view(ordered@) =~= seq![b.id@] + before);
                assert(ids_of(pre.filter(m).push(options@[i as int])).reverse() =~= seq![b.id@]
                    + ids_of(pre.filter(m)).reverse());
            } else {
                ordered.push(b.id.clone());
                assert(strings_view(ordered@) =~= before.push(b.id@));
                assert(ids_of(pre.filter(nm).push(options@[i as int])) =~= ids_of(pre.filter(nm)).push(b.id@));
            }
        }
        assert(options@.take(n as int) =~= options@);
        ordered
    }

    /// The request that sets the boot order.
    pub open spec fn boot_order_request(&self, ids: Seq<Seq<char>>) -> RequestView {
        patch_of(
            "Systems/"@ + self.sid() + "/Settings"@,
            obj1(
                "Boot"@,
                obj1(
                    "BootOrder"@,
                    JsonView::Array(Seq::new(ids.len(), |i: int| JsonView::String(ids[i]))),
                ),
            ),
        )
    }

    /// The request that sets the boot order to `boot_array`.
    pub fn change_boot_order(&self, boot_array: &Vec<String>) -> (r: Request)
        ensures
            r@ == self.boot_order_request(strings_view(boot_array@)),
    {
        let arr = string_array(boot_array);
        let mut inner: Vec<(String, JsonValue)> = Vec::new();
        push_member(&mut inner, "BootOrder", arr);
        let mut body: Vec<(String, JsonValue)> = Vec::new();
        push_member(&mut body, "Boot", JsonValue::Object(inner));
        let ghost ids = strings_view(boot_array@);
        assert(Seq::new(boot_array@.len(), |i: int| JsonView::String(boot_array@[i]@)) =~= Seq::new(
            ids.len(),
            |i: int| JsonView::String(ids[i]),
        ));
        assert(view_entries(body@) =~= self.boot_order_request(ids).body.unwrap()->Object_0);
        Request::patch(self.s.system_path("/Settings"), JsonValue::Object(body))
    }

    /// The request that overrides the boot source. (The path ends in a space,
    /// as the BMC has been sent it.)
    pub open spec fn boot_override_request(
        &self,
        target: BootSourceOverrideTarget,
        enabled: BootSourceOverrideEnabled,
    ) -> RequestView {
        patch_of(
            "Systems/"@ + self.sid() + "/Settings "@,
            obj1(
                "Boot"@,
                JsonView::Object(
                    seq![
                        ("BootSourceOverrideEnabled"@, JsonView::String(enabled.text())),
                        ("BootSourceOverrideTarget"@, JsonView::String(target.text())),
                    ],
                ),
            ),
        )
    }

    /// The request that overrides the boot source.
    pub fn set_boot_override(
        &self,
        override_target: BootSourceOverrideTarget,
        override_enabled: BootSourceOverrideEnabled,
    ) -> (r: Request)
        ensures
            r@ == self.boot_override_request(override_target, override_enabled),
    {
        let mut data: Vec<(String, JsonValue)> = Vec::new();
        push_member(&mut data, "BootSourceOverrideEnabled", JsonValue::String(override_enabled.to_string()));
        push_member(&mut data, "BootSourceOverrideTarget", JsonValue::String(override_target.to_string()));
        let mut body: Vec<(String, JsonValue)> = Vec::new();
        push_member(&mut body, "Boot", JsonValue::Object(data));
        assert(view_entries(data@) =~= self.boot_override_request(override_target, override_enabled).body.unwrap()->Object_0[0].1->Object_0);
        assert(view_entries(body@) =~= self.boot_override_request(override_target, override_enabled).body.unwrap()->Object_0);
        Request::patch(self.s.system_path("/Settings "), JsonValue::Object(body))
    }

    /// The request that boots `target` once.
    pub fn boot_once(&self, target: Boot) -> (r: Request)
        ensures
            r@ == self.boot_override_request(
                match target {
                    Boot::Pxe => BootSourceOverrideTarget::Pxe,
                    Boot::HardDisk => BootSourceOverrideTarget::Hdd,
                },
                BootSourceOverrideEnabled::Once,
            ),
    {
        match target {
            Boot::Pxe => self.set_boot_override(BootSourceOverrideTarget::Pxe, BootSourceOverrideEnabled::Once),
            Boot::HardDisk => self.set_boot_override(BootSourceOverrideTarget::Hdd, BootSourceOverrideEnabled::Once),
        }
    }

    /// The request for one boot option.
    pub fn get_boot_option(&self, option_id: &str) -> (r: Request)
        ensures
            r@ == get_of("Systems/"@ + self.sid() + "/BootOptions/"@ + option_id@),
    {
        let mut p = self.s.system_path("/BootOptions/");
        text::append(&mut p, option_id);
        Request::get(p)
    }

    /// The request that puts the matching boot option first: PXE by display
    /// name, a hard disk by a UEFI device path starting with `HD(` (the display
    /// name is something like "ubuntu"). `options` are the boot options in the
    /// system's boot order.
    pub fn boot_first(&self, target: Boot, options: &Vec<BootOption>) -> (r: Request)
        ensures
            r@ == match target {
                Boot::Pxe => self.boot_order_request(
                    boot_order_with_first(options@, BootOptionMatchField::DisplayName, BootOptionName::Pxe.text()),
                ),
                Boot::HardDisk => self.boot_order_request(
                    boot_order_with_first(options@, BootOptionMatchField::UefiDevicePath, BootOptionName::Hdd.text()),
                ),
            },
    {
        let boot_array = match target {
            Boot::Pxe => Self::get_boot_options_ids_with_first(
                BootOptionName::Pxe,
                BootOptionMatchField::DisplayName,
                None,
                options,
            ),
            Boot::HardDisk => Self::get_boot_options_ids_with_first(
                BootOptionName::Hdd,
                BootOptionMatchField::UefiDevicePath,
                None,
                options,
            ),
        };
        self.change_boot_order(&boot_array)
    }

    /// The display name of the HTTP boot option of the DPU with MAC address
    /// `address`; `NotSupported` without an address, since GB200 lacks the
    /// network device functions and PCIe devices to find it.
    pub fn dpu_boot_option_name(address: Option<&str>) -> (r: Result<String, RedfishError>)
        ensures
            match address {
                Some(a) => r matches Ok(n) && n@ == dpu_boot_option_text(a@),
                None => r matches Err(e) && is_not_supported(
                    e,
                    "set_dpu_first_boot_order without mac address is not possible on GB200 since NetworkDeviceFunctions and PCIeDevices are missing"@,
                ),
            },
    {
        match address {
            Some(x) => {
                proof {
                    reveal_strlit(":");
                    reveal_strlit("");
                }
                let stripped = text::replace(x, ":", "");
                let mac = text::to_uppercase(stripped.as_str());
                assert(""@ =~= Seq::<char>::empty());
                Ok(Self::http_boot_option_name(mac.as_str()))
            },
            None => Err(
                RedfishError::not_supported(
                    "set_dpu_first_boot_order without mac address is not possible on GB200 since NetworkDeviceFunctions and PCIeDevices are missing",
                ),
            ),
        }
    }

    /// The display name of the HTTP boot option of the NIC whose MAC address,
    /// without colons and in upper case, is `mac`.
    pub fn http_boot_option_name(mac: &str) -> (r: String)
        ensures
            r@ == http_boot_option_text(mac@),
    {
        let mut name = text::owned(BootOptionName::Http.to_string());
        text::append(&mut name, " (MAC:");
        text::append(&mut name, mac);
        text::append(&mut name, ")");
        name
    }

    /// The request that puts the DPU's HTTP boot option, named `boot_option_name`,
    /// first in the boot order.
    pub fn set_boot_order_dpu_first(&self, boot_option_name: &str, options: &Vec<BootOption>) -> (r: Request)
        ensures
            r@ == self.boot_order_request(
                boot_order_with_first(options@, BootOptionMatchField::DisplayName, boot_option_name@),
            ),
    {
        let boot_array = Self::get_boot_options_ids_with_first(
            BootOptionName::Http,
            BootOptionMatchField::DisplayName,
            Some(boot_option_name),
            options,
        );
        self.change_boot_order(&boot_array)
    }

    /// Whether the machine setup is done: Secure Boot must be off.
    pub fn machine_setup_status(sb: &SecureBoot) -> (r: MachineSetupStatus)
        ensures
            r.is_done == !sb.secure_boot_enable,
            r.diffs@.len() == if sb.secure_boot_enable { 1int } else { 0int },
            sb.secure_boot_enable ==> r.diffs@[0].key@ == "SecureBoot"@ && r.diffs@[0].expected@
                == "false"@ && r.diffs@[0].actual@ == "true"@,
    {
        let mut diffs: Vec<MachineSetupDiff> = Vec::new();
        if sb.secure_boot_enable {
            diffs.push(
                MachineSetupDiff {
                    key: "SecureBoot".to_string(),
                    expected: "false".to_string(),
                    actual: "true".to_string(),
                },
            );
        }
        MachineSetupStatus { is_done: diffs.len() == 0, diffs }
    }

    /// The body of the password policy: never lock accounts (these are also
    /// the defaults); 600 seconds is the smallest lockout duration accepted.
    pub open spec fn password_policy_body() -> JsonView {
        JsonView::Object(
            seq![
                ("AccountLockoutThreshold"@, JsonView::Number(JsonNumber::PosInt(0))),
                ("AccountLockoutDuration"@, JsonView::Number(JsonNumber::PosInt(600))),
            ],
        )
    }

    /// The request that sets the password policy.
    pub fn set_machine_password_policy(&self) -> (r: Request)
        ensures
            r@ == patch_of("AccountService"@, Self::password_policy_body()),
    {
        let mut body: Vec<(String, JsonValue)> = Vec::new();
        push_member(&mut body, "AccountLockoutThreshold", JsonValue::Number(JsonNumber::PosInt(0)));
        push_member(&mut body, "AccountLockoutDuration", JsonValue::Number(JsonNumber::PosInt(600)));
        assert(view_entries(body@) =~= Self::password_policy_body()->Object_0);
        Request::patch(text::owned("AccountService"), JsonValue::Object(body))
    }

    /// OpenBMC provides no lockdown: nothing is sent, and callers see no error.
    pub fn lockdown(&self) -> (r: Vec<Request>)
        ensures
            r@.len() == 0,
    {
        Vec::new()
    }

    /// The request for the system event log entries.
    pub fn get_system_event_log(&self) -> (r: Request)
        ensures
            r@ == get_of("Systems/"@ + self.sid() + "/LogServices/SEL/Entries"@),
    {
        Request::get(self.s.system_path("/LogServices/SEL/Entries"))
    }

    /// The request for the ports of a network adapter of a chassis.
    pub fn get_ports(&self, chassis_id: &str, network_adapter: &str) -> (r: Request)
        ensures
            r@ == get_of("Chassis/"@ + chassis_id@ + "/NetworkAdapters/"@ + network_adapter@ + "/Ports"@),
    {
        let mut p = text::owned("Chassis/");
        text::append(&mut p, chassis_id);
        text::append(&mut p, "/NetworkAdapters/");
        text::append(&mut p, network_adapter);
        text::append(&mut p, "/Ports");
        Request::get(p)
    }

    /// The request for a port of a network adapter of a chassis.
    pub fn get_port(&self, chassis_id: &str, network_adapter: &str, id: &str) -> (r: Request)
        ensures
            r@ == get_of("Chassis/"@ + chassis_id@ + "/NetworkAdapters/"@ + network_adapter@ + "/Ports/"@ + id@),
    {
        let mut p = text::owned("Chassis/");
        text::append(&mut p, chassis_id);
        text::append(&mut p, "/NetworkAdapters/");
        text::append(&mut p, network_adapter);
        text::append(&mut p, "/Ports/");
        text::append(&mut p, id);
        Request::get(p)
    }

    /// The paths of the sensors whose `@odata.id` contains `pattern` (such as
    /// `Temp`, `FAN` or `Volt`), in order.
    pub fn sensor_paths(members: &Vec<ODataId>, pattern: &str) -> (r: Vec<String>)
        ensures
            strings_view(r@) == members@.filter(|m: ODataId| text::contains_seq(m.odata_id@, pattern@)).map_values(
                |m: ODataId| odata_path_of(m.odata_id@),
            ),
    {
        let ghost keep = |m: ODataId| text::contains_seq(m.odata_id@, pattern@);
        let ghost f = |m: ODataId| odata_path_of(m.odata_id@);
        let n = members.len();
        let mut out: Vec<String> = Vec::new();
        for i in 0..n
            invariant
                n == members@.len(),
                keep == (|m: ODataId| text::contains_seq(m.odata_id@, pattern@)),
                f == (|m: ODataId| odata_path_of(m.odata_id@)),
                strings_view(out@) == members@.take(i as int).filter(keep).map_values(f),
        {
            let ghost pre = members@.take(i as int);
            assert(members@.take(i + 1) =~= pre.push(members@[i as int]));
            proof {
                pre.lemma_filter_push(members@[i as int], keep);
            }
            if text::contains(members[i].odata_id.as_str(), pattern) {
                let ghost before = strings_view(out@);
                let p = odata_path(members[i].odata_id.as_str());
                out.push(p);
                assert(strings_view(out@) =~= before.push(p@));
                assert(pre.filter(keep).push(members@[i as int]).map_values(f) =~= pre.filter(keep).map_values(f).push(f(members@[i as int])));
            }
        }
        assert(members@.take(n as int) =~= members@);
        out
    }

    /// The paths of all the members of a collection, in order.
    pub fn member_paths(members: &Vec<ODataId>) -> (r: Vec<String>)
        ensures
            strings_view(r@) == members@.map_values(|m: ODataId| odata_path_of(m.odata_id@)),
    {
        let ghost f = |m: ODataId| odata_path_of(m.odata_id@);
        let n = members.len();
        let mut out: Vec<String> = Vec::new();
        for i in 0..n
            invariant
                n == members@.len(),
                f == (|m: ODataId| odata_path_of(m.odata_id@)),
                strings_view(out@) == members@.take(i as int).map_values(f),
        {
            let ghost before = strings_view(out@);
            let p = odata_path(members[i].odata_id.as_str());
            out.push(p);
            assert(strings_view(out@) =~= before.push(p@));
            assert(members@.take(i + 1).map_values(f) =~= members@.take(i as int).map_values(f).push(
                f(members@[i as int]),
            ));
        }
        assert(members@.take(n as int) =~= members@);
        out
    }

    /// The request for a chassis.
    pub fn chassis_request(chassis_id: &str) -> (r: Request)
        ensures
            r@ == get_of("Chassis/"@ + chassis_id@),
    {
        Request::get(text::concat("Chassis/", chassis_id))
    }

    /// The request for the sensor collection of a chassis.
    pub fn sensors_request(chassis_id: &str) -> (r: Request)
        ensures
            r@ == get_of("Chassis/"@ + chassis_id@ + "/Sensors"@),
    {
        let mut p = text::owned("Chassis/");
        text::append(&mut p, chassis_id);
        text::append(&mut p, "/Sensors");
        Request::get(p)
    }

    /// The request for the power distribution board chassis, whose document
    /// the power supplies are built from.
    pub fn power_supply_request() -> (r: Request)
        ensures
            r@ == get_of("Chassis/PDB_0"@),
    {
        Request::get(text::owned("Chassis/PDB_0"))
    }

    /// What a sensor of chassis `chassis_id` is read for in the power metrics.
    pub fn power_sensor_roles(chassis_id: &str, sensor_odata_id: &str) -> (r: PowerSensorRoles)
        ensures
            r == power_roles_of(chassis_id@, sensor_odata_id@),
    {
        let pdb = text::str_eq(chassis_id, "PDB_0");
        PowerSensorRoles {
            hsc0_power: pdb && text::contains(sensor_odata_id, "HSC_0_Pwr"),
            hsc0_current: pdb && text::contains(sensor_odata_id, "HSC_0_Cur"),
            hsc1_power: pdb && text::contains(sensor_odata_id, "HSC_1_Pwr"),
            hsc1_current: pdb && text::contains(sensor_odata_id, "HSC_1_Cur"),
            voltage: text::contains(sensor_odata_id, "Volt"),
        }
    }

    /// Where the thermal metrics of chassis `chassis_id` are read, in order: a
    /// chassis with a thermal subsystem gives its temperature readings and its
    /// leak detectors, one with sensors its temperature sensors, and
    /// `Chassis_0` its fans (which are sensors there).
    pub fn thermal_sources(chassis_id: &str, has_thermal: bool, has_sensors: bool) -> (r: Vec<ThermalSource>)
        ensures
            thermal_source_views(r@) == thermal_sources_of(chassis_id@, has_thermal, has_sensors),
    {
        let mut out: Vec<ThermalSource> = Vec::new();
        if has_thermal {
            let mut t = text::owned("Chassis/");
            text::append(&mut t, chassis_id);
            text::append(&mut t, "/ThermalSubsystem/ThermalMetrics");
            out.push(ThermalSource::Temperatures(Request::get(t)));
            let mut l = text::owned("Chassis/");
            text::append(&mut l, chassis_id);
            text::append(&mut l, "/ThermalSubsystem/LeakDetection/LeakDetectors");
            out.push(ThermalSource::LeakDetectors(Request::get(l)));
        }
        if has_sensors {
            out.push(ThermalSource::TemperatureSensors(Self::sensors_request(chassis_id)));
        }
        if text::str_eq(chassis_id, "Chassis_0") {
            out.push(ThermalSource::FanSensors(Self::sensors_request(chassis_id)));
        }
        assert(thermal_source_views(out@) =~= thermal_sources_of(chassis_id@, has_thermal, has_sensors));
        out
    }

    /// Whether the PCIe devices of chassis `chassis_id` are listed.
    pub fn pcie_chassis_wanted(chassis_id: &str) -> (r: bool)
        ensures
            r == chassis_wanted(chassis_id@),
    {
        !text::contains(chassis_id, "BMC")
    }

    /// Whether a PCIe device is listed. A device with an id and a status
    /// without a state is not expected here.
    pub fn pcie_device_wanted(p: &PCIeDevice) -> (r: bool)
        requires
            p.id is Some ==> (p.status matches Some(st) ==> st.state is Some),
        ensures
            r == device_wanted(*p),
    {
        if p.id.is_none() {
            return false;
        }
        match &p.status {
            None => false,
            Some(st) => {
                let state = st.state.as_ref().unwrap();
                let lower = text::to_lowercase(state.as_str());
                Self::state_enabled(lower.as_str())
            },
        }
    }

    /// Whether a device state, in lower case, says the device is enabled.
    pub fn state_enabled(lower_state: &str) -> (r: bool)
        ensures
            r == text::contains_seq(lower_state@, "enabled"@),
    {
        text::contains(lower_state, "enabled")
    }

    /// The devices in manufacturer order (a device without a manufacturer
    /// first); devices with the same manufacturer may come in any order.
    pub fn sort_by_manufacturer(devices: Vec<PCIeDevice>) -> (r: Vec<PCIeDevice>)
        ensures
            r@.to_multiset() == devices@.to_multiset(),
            sorted_by_manufacturer(r@),
    {
        broadcast use vstd::seq_lib::group_to_multiset_ensures, vstd::multiset::group_multiset_axioms;

        let ghost all = devices@;
        let mut rest = devices;
        let mut out: Vec<PCIeDevice> = Vec::new();
        while rest.len() > 0
            invariant
                out@.to_multiset().add(rest@.to_multiset()) == all.to_multiset(),
                sorted_by_manufacturer(out@),
            decreases rest.len(),
        {
            let ghost before_rest = rest@;
            let d = rest.remove(0);
            proof {
                vstd::seq_lib::to_multiset_remove(before_rest, 0);
            }
            let n = out.len();
            let mut j: usize = 0;
            while j < n && !manufacturer_less(&d.manufacturer, &out[j].manufacturer)
                invariant
                    n == out@.len(),
                    j <= n,
                    forall|i: int| 0 <= i < j ==> !manufacturer_lt(d.manufacturer, #[trigger] out@[i].manufacturer),
                decreases n - j,
            {
                j = j + 1;
            }
            let ghost before = out@;
            proof {
                vstd::seq_lib::to_multiset_insert(before, j as int, d);
                assert(j < n ==> manufacturer_lt(d.manufacturer, before[j as int].manufacturer));
                assert forall|a: int, b: int|
                    0 <= a < b < before.len() + 1 implies !manufacturer_lt(
                    #[trigger] before.insert(j as int, d)[b].manufacturer,
                    #[trigger] before.insert(j as int, d)[a].manufacturer,
                ) by {
                    let v = before.insert(j as int, d);
                    if b < j {
                        assert(v[b] == before[b] && v[a] == before[a]);
                    } else if b == j {
                        assert(v[a] == before[a]);
                    } else if a < j {
                        assert(v[b] == before[b - 1] && v[a] == before[a]);
                    } else if a == j {
                        assert(v[b] == before[b - 1]);
                        let x = before[b - 1].manufacturer;
                        let y = before[j as int].manufacturer;
                        if manufacturer_lt(x, d.manufacturer) {
                            lemma_manufacturer_lt_transitive(x, d.manufacturer, y);
                            if b - 1 == j {
                                if y is Some {
                                    text::lemma_lex_lt_irreflexive(y->0@);
                                }
                            }
                        }
                    } else {
                        assert(v[b] == before[b - 1] && v[a] == before[a - 1]);
                    }
                }
            }
            let ghost dv = d;
            out.insert(j, d);
            proof {
                assert(out@ == before.insert(j as int, dv));
                assert(rest@ == before_rest.remove(0));
                assert(dv == before_rest[0]);
                vstd::seq_lib::to_multiset_contains(before_rest, dv);
                assert(before_rest.contains(dv));
                assert(before_rest.to_multiset().count(dv) > 0);
                assert(out@.to_multiset().add(rest@.to_multiset()) =~= before.to_multiset().add(
                    before_rest.to_multiset(),
                ));
            }
        }
        assert(rest@ =~= Seq::<PCIeDevice>::empty());
        out
    }

    /// The multipart push URI of the update service; `NotSupported` when the
    /// BMC has none.
    pub fn multipart_push_uri(update_service: &UpdateService) -> (r: Result<&String, RedfishError>)
        ensures
            match r {
                Ok(u) => update_service.multipart_http_push_uri@.len() > 0 && *u == update_service.multipart_http_push_uri,
                Err(e) => update_service.multipart_http_push_uri@.len() == 0 && is_not_supported(
                    e,
                    "Host BMC does not support HTTP multipart push"@,
                ),
            },
    {
        if update_service.multipart_http_push_uri.as_str().unicode_len() == 0 {
            Err(RedfishError::not_supported("Host BMC does not support HTTP multipart push"))
        } else {
            Ok(&update_service.multipart_http_push_uri)
        }
    }
}

/// Each `BootOptionName` is sent under its own name.
pub proof fn lemma_boot_option_name_names()
    ensures
        BootOptionName::Http.text() == "UEFI HTTPv4"@,
        BootOptionName::Pxe.text() == "UEFI PXEv4"@,
        BootOptionName::Hdd.text() == "HD("@,
{
}

} // verus!
