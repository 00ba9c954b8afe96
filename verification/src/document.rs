//! The measurement document: the shaped, unit-normalized record that is
//! persisted remotely.
//!
//! A raw reading arrives in thousandths of its physical unit (°C, %RH, Pa).
//! The builder stores temperature and humidity unconverted and divides the
//! pressure by 100 — Pa to hPa — exactly once, at construction; no later step
//! touches the stored values again.

use vstd::prelude::*;
use vstd::string::StringExecFns;
use vstd::arithmetic::div_mod::lemma_fundamental_div_mod;
use vstd::arithmetic::div_mod::lemma_mod_bound;
use vstd::arithmetic::div_mod::lemma_div_is_ordered_by_denominator;
use crate::digits::milli_chars;
use crate::digits::fmt_milli;

verus! {

/// A tagged value of the structured document: the remote schema types each
/// field either as a string or as a double.  Numeric fields carry their
/// quantity as a signed count of thousandths of a unit.
#[derive(PartialEq, Eq, Debug)]
pub enum FieldValue {
    StringValue(String),
    DoubleValue(i64),
}

impl FieldValue {
    /// Whether this is the string rail of the union.
    pub open spec fn is_string(self) -> bool {
        self matches FieldValue::StringValue(_)
    }

    /// Whether this is the numeric rail of the union.
    pub open spec fn is_number(self) -> bool {
        self matches FieldValue::DoubleValue(_)
    }

    /// The characters of a string-valued field (empty on the numeric rail).
    pub open spec fn string_chars(self) -> Seq<char> {
        match self {
            FieldValue::StringValue(s) => s@,
            FieldValue::DoubleValue(_) => Seq::empty(),
        }
    }

    /// The thousandths count of a numeric field (zero on the string rail).
    pub open spec fn number_milli(self) -> int {
        match self {
            FieldValue::StringValue(_) => 0,
            FieldValue::DoubleValue(v) => v as int,
        }
    }
}

/// Pa to hPa on thousandths: division by 100, truncating toward zero.
pub open spec fn pa_to_hpa_milli(p: int) -> int {
    if p >= 0 {
        p / 100
    } else {
        -((-p) / 100)
    }
}

/// Divide a pressure in thousandths of a Pa by 100, truncating toward zero,
/// yielding thousandths of an hPa.
fn hpa_from_pa(p: i64) -> (r: i64)
    requires
        p > i64::MIN,
    ensures
        r == pa_to_hpa_milli(p as int),
{
    if p >= 0 {
        ((p as u64) / 100) as i64
    } else {
        -((((-p) as u64) / 100) as i64)
    }
}

/// The conversion loses nothing whenever the Pa count is a multiple of 100:
/// multiplying the stored hPa count back by 100 restores the input exactly.
pub proof fn lemma_pressure_conversion_exact(p: int)
    requires
        p % 100 == 0,
    ensures
        pa_to_hpa_milli(p) * 100 == p,
{
    if p >= 0 {
        lemma_fundamental_div_mod(p, 100);
    } else {
        lemma_fundamental_div_mod(p, 100);
        lemma_fundamental_div_mod(-p, 100);
        lemma_mod_bound(-p, 100);
    }
}

/// The structured document for one measurement cycle.
#[derive(PartialEq, Eq, Debug)]
pub struct MeasurementDoc {
    pub datetime: FieldValue,
    pub temperature: FieldValue,
    pub humidity: FieldValue,
    pub pressure: FieldValue,
}

impl MeasurementDoc {
    /// Shape of a built document: the datetime on the string rail, the three
    /// quantities on the numeric rail, each renderable.
    pub open spec fn wf(self) -> bool {
        &&& self.datetime.is_string()
        &&& self.temperature.is_number()
        &&& self.humidity.is_number()
        &&& self.pressure.is_number()
        &&& self.temperature.number_milli() > i64::MIN
        &&& self.humidity.number_milli() > i64::MIN
        &&& self.pressure.number_milli() > i64::MIN
    }

    /// Tag a string for the document's string rail.
    fn to_string_value(raw: String) -> (v: FieldValue)
        ensures
            v == FieldValue::StringValue(raw),
    {
        FieldValue::StringValue(raw)
    }

    /// Tag a thousandths count for the document's numeric rail.
    fn to_double_value(raw: i64) -> (v: FieldValue)
        ensures
            v == FieldValue::DoubleValue(raw),
    {
        FieldValue::DoubleValue(raw)
    }

    /// Build the document for one reading: temperature and humidity are
    /// stored unconverted, the pressure is divided by 100 (Pa to hPa) here
    /// and nowhere else.
    pub fn new(datetime: String, temperature: i64, humidity: i64, pressure: i64) -> (d:
        MeasurementDoc)
        requires
            temperature > i64::MIN,
            humidity > i64::MIN,
            pressure > i64::MIN,
        ensures
            d.wf(),
            d.datetime == FieldValue::StringValue(datetime),
            d.temperature == FieldValue::DoubleValue(temperature),
            d.humidity == FieldValue::DoubleValue(humidity),
            d.pressure == FieldValue::DoubleValue(pa_to_hpa_milli(pressure as int) as i64),
    {
        let hpa = hpa_from_pa(pressure);
        proof {
            if pressure < 0 {
                lemma_div_is_ordered_by_denominator(-pressure as int, 1, 100);
            }
        }
        MeasurementDoc {
            datetime: MeasurementDoc::to_string_value(datetime),
            temperature: MeasurementDoc::to_double_value(temperature),
            humidity: MeasurementDoc::to_double_value(humidity),
            pressure: MeasurementDoc::to_double_value(hpa),
        }
    }

    /// The four-entry field map handed to the remote create-document call,
    /// in schema order; the four keys are pairwise distinct, so this
    /// association list is a map with its insertion order kept.
    pub fn to_hashmap(self) -> (r: Vec<(String, FieldValue)>)
        ensures
            r@.len() == 4,
            r@[0].0@ == "datetime"@,
            r@[0].1 == self.datetime,
            r@[1].0@ == "temperature"@,
            r@[1].1 == self.temperature,
            r@[2].0@ == "humidity"@,
            r@[2].1 == self.humidity,
            r@[3].0@ == "pressure"@,
            r@[3].1 == self.pressure,
    {
        let mut map: Vec<(String, FieldValue)> = Vec::new();
        map.push(("datetime".to_owned(), self.datetime));
        map.push(("temperature".to_owned(), self.temperature));
        map.push(("humidity".to_owned(), self.humidity));
        map.push(("pressure".to_owned(), self.pressure));
        map
    }

    /// The human-readable inline rendering of a built document.
    pub open spec fn inline_chars(self) -> Seq<char> {
        "\"datetime\": \""@ + self.datetime.string_chars() + "\", \"temperature\": "@
            + milli_chars(self.temperature.number_milli()) + ", \"humidity\": "@ + milli_chars(
            self.humidity.number_milli(),
        ) + ", \"pressure\": "@ + milli_chars(self.pressure.number_milli())
    }

    /// Render the document for console display: the quoted datetime and the
    /// three quantities to three decimal places.
    pub fn render_inline(&self) -> (r: String)
        requires
            self.wf(),
        ensures
            r@ == self.inline_chars(),
    {
        let mut s = "\"datetime\": \"".to_owned();
        match &self.datetime {
            FieldValue::StringValue(dt) => { s.append(dt.as_str()) },
            FieldValue::DoubleValue(_) => { vstd::pervasive::unreached() },
        }
        s.append("\", \"temperature\": ");
        match &self.temperature {
            FieldValue::DoubleValue(t) => { s.append(fmt_milli(*t).as_str()) },
            FieldValue::StringValue(_) => { vstd::pervasive::unreached() },
        }
        s.append(", \"humidity\": ");
        match &self.humidity {
            FieldValue::DoubleValue(h) => { s.append(fmt_milli(*h).as_str()) },
            FieldValue::StringValue(_) => { vstd::pervasive::unreached() },
        }
        s.append(", \"pressure\": ");
        match &self.pressure {
            FieldValue::DoubleValue(p) => { s.append(fmt_milli(*p).as_str()) },
            FieldValue::StringValue(_) => { vstd::pervasive::unreached() },
        }
        proof {
            assert(s@ =~= self.inline_chars());
        }
        s
    }
}

/// The four field names are pairwise distinct: the field map is a genuine
/// four-key map.
pub proof fn lemma_field_names_distinct()
    ensures
        "datetime"@ != "temperature"@,
        "datetime"@ != "humidity"@,
        "datetime"@ != "pressure"@,
        "temperature"@ != "humidity"@,
        "temperature"@ != "pressure"@,
        "humidity"@ != "pressure"@,
{
    reveal_strlit("datetime");
    reveal_strlit("temperature");
    reveal_strlit("humidity");
    reveal_strlit("pressure");
    assert("datetime"@[0] != "humidity"@[0]);
    assert("datetime"@[0] != "pressure"@[0]);
    assert("humidity"@[0] != "pressure"@[0]);
    assert("datetime"@.len() != "temperature"@.len());
    assert("temperature"@.len() != "humidity"@.len());
    assert("temperature"@.len() != "pressure"@.len());
}

} // verus!
