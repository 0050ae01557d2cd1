//! Reading the UPS: which OIDs are polled, and how the values that come
//! back become a sample of the UPS's state.
use vstd::prelude::*;
use vstd::string::*;
use crate::config::{strings_view, UpsConfig, UpsMapping, UpsOids};
use crate::snmp::{SnmpClient, SnmpError};
use crate::text::{
    chars_eq, chars_of, decimal, is_whitespace, lemma_parenthesised_number, normalize,
    normalize_str, parse_u32, parse_u32_spec, parse_u8, parse_u8_spec, str_eq,
};

verus! {

/// Why a sample could not be read.
#[derive(Debug)]
pub enum UpsError {
    Snmp(SnmpError),
    UnsupportedAdapter(String),
    /// The poll returned nothing for this OID.
    MissingValue(String),
}

/// Where the UPS draws its output from.
#[derive(Debug, Clone, Copy, PartialEq, Eq, Structural)]
pub enum PowerSource {
    Line,
    Battery,
    Unknown,
}

/// The battery state that the UPS reports.
#[derive(Debug, Clone, Copy, PartialEq, Eq, Structural)]
pub enum BatteryHealth {
    Normal,
    Low,
    Depleted,
    Unknown,
}

/// The values that a poll returned, keyed by OID; each OID occurs once.
#[derive(Debug)]
pub struct RawValues {
    entries: Vec<(String, String)>,
}

/// The map that a list of entries stands for: each entry, in order, sets
/// its key.
pub open spec fn entries_map(e: Seq<(String, String)>) -> Map<Seq<char>, Seq<char>>
    decreases e.len(),
{
    if e.len() == 0 {
        Map::empty()
    } else {
        entries_map(e.drop_last()).insert(e.last().0@, e.last().1@)
    }
}

pub open spec fn keys_distinct(e: Seq<(String, String)>) -> bool {
    forall|i: int, j: int| 0 <= i < j < e.len() ==> (#[trigger] e[i]).0@ != (#[trigger] e[j]).0@
}

proof fn lemma_entries_lookup(e: Seq<(String, String)>, i: int)
    requires
        keys_distinct(e),
        0 <= i < e.len(),
    ensures
        entries_map(e).contains_key(e[i].0@),
        entries_map(e)[e[i].0@] == e[i].1@,
    decreases e.len(),
{
    if i < e.len() - 1 {
        assert(e.drop_last()[i] == e[i]);
        lemma_entries_lookup(e.drop_last(), i);
        assert(e[i].0@ != e.last().0@);
    }
}

proof fn lemma_entries_absent(e: Seq<(String, String)>, k: Seq<char>)
    requires
        forall|i: int| 0 <= i < e.len() ==> (#[trigger] e[i]).0@ != k,
    ensures
        !entries_map(e).contains_key(k),
    decreases e.len(),
{
    if e.len() > 0 {
        assert forall|i: int| 0 <= i < e.drop_last().len() implies (
        #[trigger] e.drop_last()[i]).0@ != k by {
            assert(e.drop_last()[i] == e[i]);
        }
        lemma_entries_absent(e.drop_last(), k);
        assert(e.last() == e[e.len() - 1]);
    }
}

proof fn lemma_entries_update(e: Seq<(String, String)>, i: int, x: (String, String))
    requires
        keys_distinct(e),
        0 <= i < e.len(),
        e[i].0@ == x.0@,
    ensures
        entries_map(e.update(i, x)) == entries_map(e).insert(x.0@, x.1@),
    decreases e.len(),
{
    let u = e.update(i, x);
    if i == e.len() - 1 {
        assert(u.drop_last() =~= e.drop_last());
        assert(entries_map(u) =~= entries_map(e).insert(x.0@, x.1@));
    } else {
        assert(u.drop_last() =~= e.drop_last().update(i, x));
        assert(e.drop_last()[i] == e[i]);
        lemma_entries_update(e.drop_last(), i, x);
        assert(e[i].0@ != e.last().0@);
        assert(u.last() == e.last());
        assert(entries_map(u) =~= entries_map(e).insert(x.0@, x.1@));
    }
}

impl Clone for RawValues {
    fn clone(&self) -> (r: RawValues)
        ensures
            r@ == self@,
    {
        proof {
            use_type_invariant(self);
        }
        let mut entries: Vec<(String, String)> = Vec::new();
        let mut i: usize = 0;
        while i < self.entries.len()
            invariant
                i <= self.entries@.len(),
                entries@ == self.entries@.subrange(0, i as int),
            decreases self.entries@.len() - i,
        {
            let key = self.entries[i].0.clone();
            let value = self.entries[i].1.clone();
            entries.push((key, value));
            proof {
                assert(entries@ =~= self.entries@.subrange(0, i + 1));
            }
            i = i + 1;
        }
        proof {
            assert(entries@ =~= self.entries@);
        }
        RawValues { entries }
    }
}

impl View for RawValues {
    type V = Map<Seq<char>, Seq<char>>;

    closed spec fn view(&self) -> Map<Seq<char>, Seq<char>> {
        entries_map(self.entries@)
    }
}

impl RawValues {
    #[verifier::type_invariant]
    spec fn each_key_once(self) -> bool {
        keys_distinct(self.entries@)
    }

    /// No values.
    pub fn new() -> (r: RawValues)
        ensures
            r@ == Map::<Seq<char>, Seq<char>>::empty(),
    {
        RawValues { entries: Vec::new() }
    }

    fn position(&self, key: &str) -> (r: Option<usize>)
        ensures
            match r {
                Some(i) => i < self.entries@.len() && self.entries@[i as int].0@ == key@,
                None => forall|i: int|
                    0 <= i < self.entries@.len() ==> (#[trigger] self.entries@[i]).0@ != key@,
            },
    {
        let mut i: usize = 0;
        while i < self.entries.len()
            invariant
                i <= self.entries@.len(),
                forall|j: int| 0 <= j < i ==> (#[trigger] self.entries@[j]).0@ != key@,
            decreases self.entries@.len() - i,
        {
            if str_eq(self.entries[i].0.as_str(), key) {
                return Some(i);
            }
            i = i + 1;
        }
        None
    }

    /// The value recorded for an OID.
    pub fn get(&self, key: &str) -> (r: Option<&String>)
        ensures
            r is Some <==> self@.contains_key(key@),
            r matches Some(v) ==> v@ == self@[key@],
    {
        proof {
            use_type_invariant(self);
        }
        match self.position(key) {
            Some(i) => {
                proof {
                    lemma_entries_lookup(self.entries@, i as int);
                }
                Some(&self.entries[i].1)
            },
            None => {
                proof {
                    lemma_entries_absent(self.entries@, key@);
                }
                None
            },
        }
    }

    /// Records a value for an OID, replacing any earlier one.
    pub fn insert(&mut self, key: String, value: String)
        ensures
            final(self)@ == old(self)@.insert(key@, value@),
    {
        proof {
            use_type_invariant(&*self);
        }
        match self.position(key.as_str()) {
            Some(i) => {
                let ghost old_entries = self.entries@;
                let ghost entry = (key, value);
                proof {
                    lemma_entries_update(old_entries, i as int, entry);
                }
                let mut entries = Vec::new();
                std::mem::swap(&mut entries, &mut self.entries);
                entries.set(i, (key, value));
                proof {
                    assert(entries@ == old_entries.update(i as int, entry));
                    assert forall|a: int, b: int| 0 <= a < b < entries@.len() implies (
                    #[trigger] entries@[a]).0@ != (#[trigger] entries@[b]).0@ by {
                        assert(old_entries[a].0@ != old_entries[b].0@);
                    }
                }
                self.entries = entries;
            },
            None => {
                let ghost old_entries = self.entries@;
                let mut entries = Vec::new();
                std::mem::swap(&mut entries, &mut self.entries);
                entries.push((key, value));
                proof {
                    assert(entries@.drop_last() =~= old_entries);
                    assert forall|a: int, b: int| 0 <= a < b < entries@.len() implies (
                    #[trigger] entries@[a]).0@ != (#[trigger] entries@[b]).0@ by {
                        if b < old_entries.len() {
                            assert(old_entries[a].0@ != old_entries[b].0@);
                        } else {
                            assert(entries@[a] == old_entries[a]);
                        }
                    }
                }
                self.entries = entries;
            },
        }
    }
}


/// One reading of the UPS.
#[derive(Debug, Clone)]
pub struct UpsSample {
    pub power_source: PowerSource,
    pub battery_charge_percent: Option<u8>,
    pub battery_health: BatteryHealth,
    pub seconds_on_battery: Option<u32>,
    pub runtime_remaining_minutes: Option<u32>,
    /// Every value of the poll, by OID.
    pub raw: RawValues,
}

/// A reported value matches a configured candidate when both normalise to
/// the same text, or when both read as the same number.
pub open spec fn candidate_matches(value: Seq<char>, candidate: Seq<char>) -> bool {
    ||| normalize(candidate) == normalize(value)
    ||| parse_u32_spec(value) is Some && parse_u32_spec(candidate) == parse_u32_spec(value)
}

pub open spec fn matches_any_spec(value: Seq<char>, candidates: Seq<Seq<char>>) -> bool {
    exists|i: int| 0 <= i < candidates.len() && candidate_matches(value, #[trigger] candidates[i])
}

/// The power source that a reported output source stands for; the battery
/// values are tried first.
pub open spec fn power_source_of(value: Seq<char>, m: UpsMapping) -> PowerSource {
    if matches_any_spec(value, strings_view(m.on_battery_values@)) {
        PowerSource::Battery
    } else if matches_any_spec(value, strings_view(m.line_values@)) {
        PowerSource::Line
    } else {
        PowerSource::Unknown
    }
}

/// The battery health that a reported battery status stands for; the
/// worse states are tried first, and `2` or `batteryNormal` is normal.
pub open spec fn battery_health_of(value: Seq<char>, m: UpsMapping) -> BatteryHealth {
    if matches_any_spec(value, strings_view(m.depleted_battery_values@)) {
        BatteryHealth::Depleted
    } else if matches_any_spec(value, strings_view(m.low_battery_values@)) {
        BatteryHealth::Low
    } else if parse_u32_spec(value) == Some(2u32) || normalize(value) == "batterynormal"@ {
        BatteryHealth::Normal
    } else {
        BatteryHealth::Unknown
    }
}

/// Whether a reported value matches any configured candidate (see
/// [`candidate_matches`]).
pub fn matches_any(value: &str, candidates: &Vec<String>) -> (r: bool)
    ensures
        r == matches_any_spec(value@, strings_view(candidates@)),
{
    let normalized = normalize_str(value);
    let numeric = parse_u32(value);
    let mut i: usize = 0;
    while i < candidates.len()
        invariant
            i <= candidates@.len(),
            normalized@ == normalize(value@),
            numeric == parse_u32_spec(value@),
            forall|j: int|
                0 <= j < i ==> !candidate_matches(value@, #[trigger] strings_view(candidates@)[j]),
        decreases candidates@.len() - i,
    {
        let candidate = candidates[i].as_str();
        let same_text = chars_eq(normalize_str(candidate).as_slice(), normalized.as_slice());
        let same_number = match (numeric, parse_u32(candidate)) {
            (Some(left), Some(right)) => left == right,
            _ => false,
        };
        if same_text || same_number {
            proof {
                assert(candidate_matches(value@, strings_view(candidates@)[i as int]));
            }
            return true;
        }
        i = i + 1;
    }
    false
}

/// Matching does not depend on the order of the candidates, nor on
/// repeated ones, and nothing matches an empty list.
pub proof fn lemma_matches_any_ignores_order(value: Seq<char>, a: Seq<Seq<char>>, b: Seq<Seq<char>>)
    requires
        a.to_set() == b.to_set(),
    ensures
        matches_any_spec(value, a) == matches_any_spec(value, b),
        !matches_any_spec(value, Seq::empty()),
{
    if matches_any_spec(value, a) {
        let i = choose|i: int| 0 <= i < a.len() && candidate_matches(value, #[trigger] a[i]);
        assert(a.to_set().contains(a[i]));
        assert(b.contains(a[i]));
        let j = choose|j: int| 0 <= j < b.len() && b[j] == a[i];
        assert(candidate_matches(value, b[j]));
    }
    if matches_any_spec(value, b) {
        let j = choose|j: int| 0 <= j < b.len() && candidate_matches(value, #[trigger] b[j]);
        assert(b.to_set().contains(b[j]));
        assert(a.contains(b[j]));
        let i = choose|i: int| 0 <= i < a.len() && a[i] == b[j];
        assert(candidate_matches(value, a[i]));
    }
}

fn parse_power_source(value: &str, mapping: &UpsMapping) -> (r: PowerSource)
    ensures
        r == power_source_of(value@, *mapping),
{
    if matches_any(value, &mapping.on_battery_values) {
        PowerSource::Battery
    } else if matches_any(value, &mapping.line_values) {
        PowerSource::Line
    } else {
        PowerSource::Unknown
    }
}

fn parse_battery_health(value: &str, mapping: &UpsMapping) -> (r: BatteryHealth)
    ensures
        r == battery_health_of(value@, *mapping),
{
    if matches_any(value, &mapping.depleted_battery_values) {
        BatteryHealth::Depleted
    } else if matches_any(value, &mapping.low_battery_values) {
        BatteryHealth::Low
    } else if parse_u32(value) == Some(2u32) || chars_eq(
        normalize_str(value).as_slice(),
        chars_of("batterynormal").as_slice(),
    ) {
        BatteryHealth::Normal
    } else {
        BatteryHealth::Unknown
    }
}

/// The OIDs that one poll requests, in order: output source, battery
/// charge, battery status, then the optional ones that are configured.
pub open spec fn oid_list_spec(o: UpsOids) -> Seq<Seq<char>> {
    seq![o.output_source@, o.battery_charge_percent@, o.battery_status@] + match o.seconds_on_battery {
        Some(x) => seq![x@],
        None => Seq::empty(),
    } + match o.runtime_remaining_minutes {
        Some(x) => seq![x@],
        None => Seq::empty(),
    }
}

/// The first `n` OIDs paired with the first `n` values, each pair setting
/// its OID in order.
pub open spec fn zip_prefix(keys: Seq<Seq<char>>, values: Seq<Seq<char>>, n: nat) -> Map<
    Seq<char>,
    Seq<char>,
>
    decreases n,
{
    if n == 0 {
        Map::empty()
    } else {
        zip_prefix(keys, values, (n - 1) as nat).insert(keys[n - 1], values[n - 1])
    }
}

/// The OIDs paired with the values, as far as both go.
pub open spec fn zip_map(keys: Seq<Seq<char>>, values: Seq<Seq<char>>) -> Map<Seq<char>, Seq<char>> {
    zip_prefix(
        keys,
        values,
        if keys.len() <= values.len() {
            keys.len()
        } else {
            values.len()
        },
    )
}

/// A number read from the value of an optional OID, if that OID is
/// configured and was returned.
pub open spec fn optional_number(raw: Map<Seq<char>, Seq<char>>, oid: Option<String>) -> Option<u32> {
    match oid {
        Some(o) => if raw.contains_key(o@) {
            parse_u32_spec(raw[o@])
        } else {
            None
        },
        None => None,
    }
}

/// What a poll that returned `values` gives: the sample, or the first
/// required OID without a value.
pub open spec fn sample_outcome(
    o: UpsOids,
    m: UpsMapping,
    values: Seq<Seq<char>>,
    r: Result<UpsSample, UpsError>,
) -> bool {
    let raw = zip_map(oid_list_spec(o), values);
    if !raw.contains_key(o.output_source@) {
        r matches Err(UpsError::MissingValue(oid)) && oid@ == o.output_source@
    } else if !raw.contains_key(o.battery_status@) {
        r matches Err(UpsError::MissingValue(oid)) && oid@ == o.battery_status@
    } else {
        &&& r matches Ok(s)
        &&& s.raw@ == raw
        &&& s.power_source == power_source_of(raw[o.output_source@], m)
        &&& s.battery_health == battery_health_of(raw[o.battery_status@], m)
        &&& s.battery_charge_percent == if raw.contains_key(o.battery_charge_percent@) {
            parse_u8_spec(raw[o.battery_charge_percent@])
        } else {
            None
        }
        &&& s.seconds_on_battery == optional_number(raw, o.seconds_on_battery)
        &&& s.runtime_remaining_minutes == optional_number(raw, o.runtime_remaining_minutes)
    }
}

/// What a poll whose client answered `reply` gives: the client's error,
/// passed on as it is, or the sample read from the values.
pub open spec fn reply_outcome(
    o: UpsOids,
    m: UpsMapping,
    reply: Result<Vec<String>, SnmpError>,
    r: Result<UpsSample, UpsError>,
) -> bool {
    match reply {
        Err(e) => r == Err::<UpsSample, UpsError>(UpsError::Snmp(e)),
        Ok(values) => sample_outcome(o, m, strings_view(values@), r),
    }
}

/// Reads the UPS through an SNMP client.
pub trait UpsAdapter {
    /// The OIDs that the adapter polls and the mapping by which it reads
    /// their values.
    spec fn configured(&self) -> (UpsOids, UpsMapping);

    fn read_sample(&self, client: &dyn SnmpClient) -> Result<UpsSample, UpsError>;
}

/// The adapter for cards that implement the standard UPS-MIB.
#[derive(Debug, Clone)]
pub struct UpsMibAdapter {
    oids: UpsOids,
    mapping: UpsMapping,
}

impl UpsMibAdapter {
    pub fn new(oids: UpsOids, mapping: UpsMapping) -> (r: UpsMibAdapter)
        ensures
            r.oids() == oids,
            r.mapping() == mapping,
    {
        UpsMibAdapter { oids, mapping }
    }

    pub closed spec fn oids(&self) -> UpsOids {
        self.oids
    }

    pub closed spec fn mapping(&self) -> UpsMapping {
        self.mapping
    }

    /// The OIDs that one poll requests.
    pub fn oid_list(&self) -> (r: Vec<String>)
        ensures
            strings_view(r@) == oid_list_spec(self.oids()),
    {
        let mut oids = vec![
            self.oids.output_source.clone(),
            self.oids.battery_charge_percent.clone(),
            self.oids.battery_status.clone(),
        ];
        match &self.oids.seconds_on_battery {
            Some(oid) => oids.push(oid.clone()),
            None => {},
        }
        match &self.oids.runtime_remaining_minutes {
            Some(oid) => oids.push(oid.clone()),
            None => {},
        }
        proof {
            assert(strings_view(oids@) =~= oid_list_spec(self.oids()));
        }
        oids
    }

    fn optional_number(raw: &RawValues, oid: &Option<String>) -> (r: Option<u32>)
        ensures
            r == optional_number(raw@, *oid),
    {
        match oid {
            Some(o) => match raw.get(o.as_str()) {
                Some(value) => parse_u32(value.as_str()),
                None => None,
            },
            None => None,
        }
    }

    /// What a poll of [`Self::oid_list`] gives from the client's answer
    /// (see [`reply_outcome`]).
    pub fn sample_from_reply(&self, reply: Result<Vec<String>, SnmpError>) -> (r: Result<
        UpsSample,
        UpsError,
    >)
        ensures
            reply_outcome(self.oids(), self.mapping(), reply, r),
    {
        match reply {
            Ok(values) => self.sample_from_values(&values),
            Err(e) => Err(UpsError::Snmp(e)),
        }
    }

    /// The sample that a poll returning `values` for [`Self::oid_list`]
    /// gives (see [`sample_outcome`]).
    pub fn sample_from_values(&self, values: &Vec<String>) -> (r: Result<UpsSample, UpsError>)
        ensures
            sample_outcome(self.oids(), self.mapping(), strings_view(values@), r),
    {
        let oids = self.oid_list();
        let ghost keys = strings_view(oids@);
        let ghost vals = strings_view(values@);
        let n = if oids.len() <= values.len() {
            oids.len()
        } else {
            values.len()
        };
        let mut raw = RawValues::new();
        let mut i: usize = 0;
        while i < n
            invariant
                i <= n,
                n <= oids@.len(),
                n <= values@.len(),
                keys == strings_view(oids@),
                vals == strings_view(values@),
                raw@ == zip_prefix(keys, vals, i as nat),
            decreases n - i,
        {
            raw.insert(oids[i].clone(), values[i].clone());
            i = i + 1;
        }
        let output_source = match raw.get(self.oids.output_source.as_str()) {
            Some(v) => v,
            None => return Err(UpsError::MissingValue(self.oids.output_source.clone())),
        };
        let battery_status = match raw.get(self.oids.battery_status.as_str()) {
            Some(v) => v,
            None => return Err(UpsError::MissingValue(self.oids.battery_status.clone())),
        };
        let charge = match raw.get(self.oids.battery_charge_percent.as_str()) {
            Some(v) => parse_u8(v.as_str()),
            None => None,
        };
        let runtime = Self::optional_number(&raw, &self.oids.runtime_remaining_minutes);
        let seconds_on_battery = Self::optional_number(&raw, &self.oids.seconds_on_battery);
        let power_source = parse_power_source(output_source.as_str(), &self.mapping);
        let battery_health = parse_battery_health(battery_status.as_str(), &self.mapping);
        Ok(
            UpsSample {
                power_source,
                battery_charge_percent: charge,
                battery_health,
                seconds_on_battery,
                runtime_remaining_minutes: runtime,
                raw,
            },
        )
    }
}

impl UpsAdapter for UpsMibAdapter {
    open spec fn configured(&self) -> (UpsOids, UpsMapping) {
        (self.oids(), self.mapping())
    }

    /// Polls [`Self::oid_list`] and reads the sample from the client's
    /// answer, whatever it is (see [`Self::sample_from_reply`]).
    fn read_sample(&self, client: &dyn SnmpClient) -> (r: Result<UpsSample, UpsError>)
        ensures
            exists|reply: Result<Vec<String>, SnmpError>|
                reply_outcome(self.oids(), self.mapping(), reply, r),
    {
        let oids = self.oid_list();
        let reply = client.get_many(oids.as_slice());
        let r = self.sample_from_reply(reply);
        proof {
            assert(reply_outcome(self.oids(), self.mapping(), reply, r));
        }
        r
    }
}

/// The adapter that the configuration names: `ups_mib`, or its alias
/// `santak_ups_mib`.
pub fn build_adapter(config: UpsConfig) -> (r: Result<Box<dyn UpsAdapter>, UpsError>)
    ensures
        (config.adapter@ == "ups_mib"@ || config.adapter@ == "santak_ups_mib"@) ==> r is Ok,
        r matches Ok(a) ==> a.configured() == (config.oids, config.mapping),
        !(config.adapter@ == "ups_mib"@ || config.adapter@ == "santak_ups_mib"@) ==> (r matches Err(
            UpsError::UnsupportedAdapter(name),
        ) && name@ == config.adapter@),
{
    if str_eq(config.adapter.as_str(), "ups_mib") || str_eq(config.adapter.as_str(), "santak_ups_mib") {
        Ok(Box::new(UpsMibAdapter::new(config.oids, config.mapping)))
    } else {
        Err(UpsError::UnsupportedAdapter(config.adapter))
    }
}

/// A battery status that reads as the number 2 (the UPS-MIB's
/// `batteryNormal(2)`), or whose letters and digits are `batterynormal`, is
/// normal unless the mapping lists it as depleted or low; one that the
/// mapping lists as depleted is depleted, and one listed as low but not
/// depleted is low.
pub proof fn lemma_battery_health_rules(value: Seq<char>, m: UpsMapping)
    ensures
        (parse_u32_spec(value) == Some(2u32) || normalize(value) == "batterynormal"@)
            && !matches_any_spec(value, strings_view(m.depleted_battery_values@))
            && !matches_any_spec(value, strings_view(m.low_battery_values@))
            ==> battery_health_of(value, m) == BatteryHealth::Normal,
        matches_any_spec(value, strings_view(m.depleted_battery_values@)) ==> battery_health_of(
            value,
            m,
        ) == BatteryHealth::Depleted,
        matches_any_spec(value, strings_view(m.low_battery_values@)) && !matches_any_spec(
            value,
            strings_view(m.depleted_battery_values@),
        ) ==> battery_health_of(value, m) == BatteryHealth::Low,
        battery_health_of(value, m) == BatteryHealth::Normal ==> parse_u32_spec(value) == Some(2u32)
            || normalize(value) == "batterynormal"@,
{
}

/// A reported output source is on battery when it matches a battery
/// value, and on line power when it matches a line value but no battery
/// value; anything else is unknown.
pub proof fn lemma_power_source_rules(value: Seq<char>, m: UpsMapping)
    ensures
        matches_any_spec(value, strings_view(m.on_battery_values@)) <==> power_source_of(value, m)
            == PowerSource::Battery,
        !matches_any_spec(value, strings_view(m.on_battery_values@)) && matches_any_spec(
            value,
            strings_view(m.line_values@),
        ) <==> power_source_of(value, m) == PowerSource::Line,
{
}

/// The UPS-MIB writes a normal battery as a name with `(2)`: any such
/// status is normal unless the mapping lists it as depleted or low.
pub proof fn lemma_named_status_two_is_normal(name: Seq<char>, m: UpsMapping)
    requires
        forall|j: int| 0 <= j < name.len() ==> name[j] != '(',
        name.len() == 0 || !is_whitespace(name[0]),
        !matches_any_spec(name + seq!['(', '2', ')'], strings_view(m.depleted_battery_values@)),
        !matches_any_spec(name + seq!['(', '2', ')'], strings_view(m.low_battery_values@)),
    ensures
        battery_health_of(name + seq!['(', '2', ')'], m) == BatteryHealth::Normal,
{
    assert(decimal(2) =~= seq!['2']);
    assert(name + seq!['('] + decimal(2) + seq![')'] =~= name + seq!['(', '2', ')']);
    lemma_parenthesised_number(name, 2);
}

} // verus!
