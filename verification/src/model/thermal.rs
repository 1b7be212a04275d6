//! Fans and temperature sensors of a chassis.

use vstd::prelude::*;

use super::oem::hp::HpType;
use super::{text_or_empty, ODataLinks, SomeStatus};

verus! {

#[derive(Debug, Clone)]
pub struct FansOemHp {
    pub fan_type: HpType,
    pub location: String,
}

#[derive(Debug, Clone)]
pub struct FansOem {
    pub hp: FansOemHp,
}

#[derive(Debug, Clone)]
pub struct Fan {
    pub current_reading: i64,
    pub fan_name: String,
    pub oem: FansOem,
    pub status: SomeStatus,
    pub units: String,
}

impl Fan {
    pub fn health(&self) -> (r: String)
        ensures
            r@ == text_or_empty(self.status.health),
    {
        self.status.health()
    }

    pub fn state(&self) -> (r: String)
        ensures
            r@ == text_or_empty(self.status.state),
    {
        self.status.state()
    }
}

#[derive(Debug, Clone)]
pub struct TemperaturesOemHp {
    pub temp_type: HpType,
    pub location_xmm: i64,
    pub location_ymm: i64,
}

#[derive(Debug, Clone)]
pub struct TemperaturesOem {
    pub hp: TemperaturesOemHp,
}

#[derive(Debug, Clone)]
pub struct Temperature {
    pub current_reading: i64,
    pub name: String,
    pub number: i64,
    pub lower_threshold_critical: Option<i64>,
    pub lower_threshold_fatal: Option<i64>,
    pub oem: TemperaturesOem,
    pub physical_context: String,
    pub reading_celsius: i64,
    pub status: SomeStatus,
    pub units: String,
    pub upper_threshold_critical: i64,
    pub upper_threshold_fatal: i64,
}

impl Temperature {
    pub fn health(&self) -> (r: String)
        ensures
            r@ == text_or_empty(self.status.health),
    {
        self.status.health()
    }

    pub fn state(&self) -> (r: String)
        ensures
            r@ == text_or_empty(self.status.state),
    {
        self.status.state()
    }
}

#[derive(Debug)]
pub struct Thermal {
    pub odata: ODataLinks,
    pub fans: Vec<Fan>,
    pub id: String,
    pub name: String,
    pub temperatures: Vec<Temperature>,
    pub thermal_type: String,
}

/// The health and the state of a status, in that order.
pub open spec fn health_state(s: SomeStatus) -> (Seq<char>, Seq<char>) {
    (text_or_empty(s.health), text_or_empty(s.state))
}

/// The text of a pair of strings.
pub open spec fn pair_view(p: (String, String)) -> (Seq<char>, Seq<char>) {
    (p.0@, p.1@)
}

pub open spec fn pairs_view(v: Seq<(String, String)>) -> Seq<(Seq<char>, Seq<char>)> {
    v.map_values(|p: (String, String)| pair_view(p))
}

pub open spec fn fan_statuses(fans: Seq<Fan>) -> Seq<(Seq<char>, Seq<char>)> {
    fans.map_values(|f: Fan| health_state(f.status))
}

pub open spec fn temperature_statuses(ts: Seq<Temperature>) -> Seq<(Seq<char>, Seq<char>)> {
    ts.map_values(|t: Temperature| health_state(t.status))
}

impl Thermal {
    /// The statuses to report: every fan's, then every temperature sensor's.
    pub open spec fn statuses(&self) -> Seq<(Seq<char>, Seq<char>)> {
        fan_statuses(self.fans@) + temperature_statuses(self.temperatures@)
    }

    /// The health and state of every fan, then of every temperature sensor.
    pub fn get_vec(&self) -> (v: Vec<(String, String)>)
        ensures
            pairs_view(v@) == self.statuses(),
    {
        let mut v: Vec<(String, String)> = Vec::new();
        let nf = self.fans.len();
        for i in 0..nf
            invariant
                nf == self.fans@.len(),
                v@.len() == i,
                pairs_view(v@) == fan_statuses(self.fans@.take(i as int)),
        {
            let f = &self.fans[i];
            let ghost old_v = v@;
            v.push((f.health(), f.state()));
            assert(pairs_view(v@) =~= fan_statuses(self.fans@.take(i + 1))) by {
                assert forall|j: int| 0 <= j < i implies #[trigger] pairs_view(v@)[j]
                    == fan_statuses(self.fans@.take(i + 1))[j] by {
                    assert(v@[j] == old_v[j]);
                    assert(pairs_view(old_v)[j] == fan_statuses(self.fans@.take(i as int))[j]);
                    assert(self.fans@.take(i as int)[j] == self.fans@.take(i + 1)[j]);
                }
            }
        }
        assert(self.fans@.take(nf as int) =~= self.fans@);
        let ghost fan_part = fan_statuses(self.fans@);
        let nt = self.temperatures.len();
        for i in 0..nt
            invariant
                nt == self.temperatures@.len(),
                fan_part == fan_statuses(self.fans@),
                fan_part.len() == self.fans@.len(),
                v@.len() == fan_part.len() + i,
                pairs_view(v@) == fan_part + temperature_statuses(self.temperatures@.take(i as int)),
        {
            let t = &self.temperatures[i];
            let ghost old_v = v@;
            v.push((t.health(), t.state()));
            let ghost tp = temperature_statuses(self.temperatures@.take(i + 1));
            let ghost tq = temperature_statuses(self.temperatures@.take(i as int));
            assert(pairs_view(v@) =~= fan_part + tp) by {
                assert forall|j: int| 0 <= j < old_v.len() implies #[trigger] pairs_view(v@)[j]
                    == (fan_part + tp)[j] by {
                    assert(v@[j] == old_v[j]);
                    assert(pairs_view(old_v)[j] == (fan_part + tq)[j]);
                    if j >= fan_part.len() {
                        let jj = j - fan_part.len();
                        assert(self.temperatures@.take(i as int)[jj] == self.temperatures@.take(i + 1)[jj]);
                        assert(tq[jj] == tp[jj]);
                    }
                }
            }
        }
        assert(self.temperatures@.take(nt as int) =~= self.temperatures@);
        v
    }
}

} // verus!
