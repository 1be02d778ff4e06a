//! The measurement-history endpoint: typed request parameters and their
//! exact wire mapping.

use vstd::prelude::*;
use vstd::string::*;

use crate::client::wire::{
    bool_to_string, dec_str, spec_bool_str, u64_to_dec_string, ParamMap,
};
use crate::client::{url_join, AuthenticatedClient};
use crate::errors::{is_call_failure_for, Error};

verus! {

/// The sampling scale of a measurement request.
#[derive(Debug, Clone, Copy, PartialEq, Eq, Structural)]
pub enum Scale {
    Max,
    Min30,
    Hour1,
    Hours3,
    Day1,
    Week1,
    Month1,
}

impl Scale {
    /// The scale's wire form.
    pub open spec fn display_str(self) -> Seq<char> {
        match self {
            Scale::Max => "max"@,
            Scale::Min30 => "30min"@,
            Scale::Hour1 => "1hour"@,
            Scale::Hours3 => "3hours"@,
            Scale::Day1 => "1day"@,
            Scale::Week1 => "1week"@,
            Scale::Month1 => "1month"@,
        }
    }

    /// Render the scale in its wire form.
    pub fn display_name(&self) -> (r: &'static str)
        ensures
            r@ == self.display_str(),
    {
        match self {
            Scale::Max => "max",
            Scale::Min30 => "30min",
            Scale::Hour1 => "1hour",
            Scale::Hours3 => "3hours",
            Scale::Day1 => "1day",
            Scale::Week1 => "1week",
            Scale::Month1 => "1month",
        }
    }
}

/// A measured data type.
#[derive(Debug, Clone, Copy, PartialEq, Eq, Structural)]
pub enum Type {
    Temperature,
    Humidity,
    CO2,
}

impl Type {
    /// The data type's wire form.
    pub open spec fn display_str(self) -> Seq<char> {
        match self {
            Type::Temperature => "Temperature"@,
            Type::Humidity => "Humidity"@,
            Type::CO2 => "CO2"@,
        }
    }

    /// Render the data type in its wire form.
    pub fn display_name(&self) -> (r: &'static str)
        ensures
            r@ == self.display_str(),
    {
        match self {
            Type::Temperature => "Temperature",
            Type::Humidity => "Humidity",
            Type::CO2 => "CO2",
        }
    }
}

/// The comma-joined rendering of a data-type list, in the order given.
pub open spec fn spec_types_join(types: Seq<Type>) -> Seq<char>
    decreases types.len(),
{
    if types.len() == 0 {
        Seq::empty()
    } else if types.len() == 1 {
        types[0].display_str()
    } else {
        spec_types_join(types.drop_last()) + ","@ + types.last().display_str()
    }
}

/// Join a data-type list into its comma-separated wire form, keeping the
/// order given.
pub fn join_types(types: &Vec<Type>) -> (r: String)
    ensures
        r@ == spec_types_join(types@),
{
    let mut r = String::new();
    let mut i: usize = 0;
    while i < types.len()
        invariant
            i <= types@.len(),
            r@ == spec_types_join(types@.take(i as int)),
        decreases types@.len() - i,
    {
        if i > 0 {
            r.append(",");
        }
        r.append(types[i].display_name());
        proof {
            assert(types@.take(i as int + 1).drop_last() =~= types@.take(i as int));
            assert(types@.take(i as int + 1).last() == types@[i as int]);
            if i == 0 {
                assert(r@ =~= spec_types_join(types@.take(1)));
            }
        }
        i += 1;
    }
    proof {
        assert(types@.take(types@.len() as int) =~= types@);
    }
    r
}

/// The parameters of a measurement request: device, module, scale and data
/// types are required; the time window, the limit flag and the real-time
/// flag are optional.
#[derive(Debug)]
pub struct Parameters {
    pub device_id: String,
    pub module_id: String,
    pub scale: Scale,
    pub types: Vec<Type>,
    pub date_begin: Option<usize>,
    pub date_end: Option<usize>,
    pub limit: Option<bool>,
    pub real_time: Option<bool>,
}

/// The wire mapping of measurement parameters: the required fields always,
/// each optional field exactly when it was set, the data types comma-joined,
/// and the fixed `optimize=false` entry.
pub open spec fn spec_to_params(p: Parameters) -> Map<Seq<char>, Seq<char>> {
    let base = Map::<Seq<char>, Seq<char>>::empty()
        .insert("device_id"@, p.device_id@)
        .insert("module_id"@, p.module_id@)
        .insert("scale"@, p.scale.display_str())
        .insert("type"@, spec_types_join(p.types@))
        .insert("optimize"@, "false"@);
    let m1 = match p.date_begin {
        Some(v) => base.insert("date_begin"@, dec_str(v as nat)),
        None => base,
    };
    let m2 = match p.date_end {
        Some(v) => m1.insert("date_end"@, dec_str(v as nat)),
        None => m1,
    };
    let m3 = match p.limit {
        Some(v) => m2.insert("limit"@, spec_bool_str(v)),
        None => m2,
    };
    match p.real_time {
        Some(v) => m3.insert("real_time"@, spec_bool_str(v)),
        None => m3,
    }
}

impl Parameters {
    /// Parameters for a device's own measurements: the module defaults to
    /// the device itself, and nothing optional is set.
    pub fn new(device_id: &str, scale: Scale, types: Vec<Type>) -> (r: Self)
        ensures
            r.device_id@ == device_id@,
            r.module_id@ == device_id@,
            r.scale == scale,
            r.types@ == types@,
            r.date_begin is None,
            r.date_end is None,
            r.limit is None,
            r.real_time is None,
    {
        Parameters {
            device_id: device_id.to_owned(),
            module_id: device_id.to_owned(),
            scale,
            types,
            date_begin: None,
            date_end: None,
            limit: None,
            real_time: None,
        }
    }

    /// Parameters for a named module's measurements: as `new`, with the
    /// module given explicitly.
    pub fn with_module_id(device_id: &str, module_id: &str, scale: Scale, types: Vec<Type>) -> (r:
        Self)
        ensures
            r.device_id@ == device_id@,
            r.module_id@ == module_id@,
            r.scale == scale,
            r.types@ == types@,
            r.date_begin is None,
            r.date_end is None,
            r.limit is None,
            r.real_time is None,
    {
        Parameters {
            device_id: device_id.to_owned(),
            module_id: module_id.to_owned(),
            scale,
            types,
            date_begin: None,
            date_end: None,
            limit: None,
            real_time: None,
        }
    }

    /// The same parameters with the window start set.
    pub fn date_begin(self, date_begin: usize) -> (r: Self)
        ensures
            r == (Parameters { date_begin: Some(date_begin), ..self }),
    {
        Parameters { date_begin: Some(date_begin), ..self }
    }

    /// The same parameters with the window end set.
    pub fn date_end(self, date_end: usize) -> (r: Self)
        ensures
            r == (Parameters { date_end: Some(date_end), ..self }),
    {
        Parameters { date_end: Some(date_end), ..self }
    }

    /// The same parameters with the limit flag set.
    pub fn limit(self, limit: bool) -> (r: Self)
        ensures
            r == (Parameters { limit: Some(limit), ..self }),
    {
        Parameters { limit: Some(limit), ..self }
    }

    /// The same parameters with the real-time flag set.
    pub fn real_time(self, real_time: bool) -> (r: Self)
        ensures
            r == (Parameters { real_time: Some(real_time), ..self }),
    {
        Parameters { real_time: Some(real_time), ..self }
    }

    /// The wire mapping of the parameters: required fields always, optional
    /// fields exactly when set, each in its canonical rendering.
    pub fn to_params(&self) -> (r: ParamMap)
        ensures
            r.wf(),
            r@ == spec_to_params(*self),
    {
        let mut m = ParamMap::new();
        m.insert("device_id", self.device_id.clone());
        m.insert("module_id", self.module_id.clone());
        m.insert("scale", self.scale.display_name().to_owned());
        m.insert("type", join_types(&self.types));
        m.insert("optimize", "false".to_owned());
        if let Some(v) = self.date_begin {
            m.insert("date_begin", u64_to_dec_string(v as u64));
        }
        if let Some(v) = self.date_end {
            m.insert("date_end", u64_to_dec_string(v as u64));
        }
        if let Some(v) = self.limit {
            m.insert("limit", bool_to_string(v));
        }
        if let Some(v) = self.real_time {
            m.insert("real_time", bool_to_string(v));
        }
        proof {
            assert(m@ =~= spec_to_params(*self));
        }
        m
    }
}

/// Fetch measurements: one request/response round trip on the authenticated
/// call path, returning the raw success body. The typed measurement payload
/// carries floating-point readings and so stands outside the verified core.
pub fn get_measure(client: &AuthenticatedClient, parameters: &Parameters) -> (r: Result<
    String,
    Error,
>)
    ensures
        r matches Err(e) ==> is_call_failure_for(e.kind, "getmeasure"@),
{
    let params = parameters.to_params();
    let url = url_join(&client.base_url, "/api/getmeasure");
    client.call("getmeasure", url.as_str(), params)
}

} // verus!
