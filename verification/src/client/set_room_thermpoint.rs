//! The setpoint-write endpoint: typed request parameters, their exact wire
//! mapping, and the typed success response.

use vstd::prelude::*;

use crate::client::transport;
use crate::client::transport::status_response_of;
use crate::client::wire::{dec_str, tenths_str, tenths_to_string, u64_to_dec_string, ParamMap};
use crate::client::{url_join, AuthenticatedClient};
use crate::errors::{has_some_text_cause, is_endpoint_failure_for, Error, ErrorKind};

verus! {

/// The setpoint mode to write.
#[derive(Debug, Clone, Copy, PartialEq, Eq, Structural)]
pub enum Mode {
    Manual,
    Home,
}

impl Mode {
    /// The mode's wire form.
    pub open spec fn display_str(self) -> Seq<char> {
        match self {
            Mode::Manual => "manual"@,
            Mode::Home => "home"@,
        }
    }

    /// Render the mode in its wire form.
    pub fn display_name(&self) -> (r: &'static str)
        ensures
            r@ == self.display_str(),
    {
        match self {
            Mode::Manual => "manual",
            Mode::Home => "home",
        }
    }
}

/// A measured data type.
#[derive(Debug, Clone, Copy, PartialEq, Eq, Structural)]
pub enum Type {
    Temperature,
    Humidity,
    CO2,
}

impl Type {
    /// The data type's wire form.
    pub open spec fn display_str(self) -> Seq<char> {
        match self {
            Type::Temperature => "Temperature"@,
            Type::Humidity => "Humidity"@,
            Type::CO2 => "CO2"@,
        }
    }

    /// Render the data type in its wire form.
    pub fn display_name(&self) -> (r: &'static str)
        ensures
            r@ == self.display_str(),
    {
        match self {
            Type::Temperature => "Temperature",
            Type::Humidity => "Humidity",
            Type::CO2 => "CO2",
        }
    }
}

/// The parameters of a setpoint write: home, room and mode are required; the
/// temperature (in tenths of a degree) and the end time are optional.
#[derive(Debug)]
pub struct Parameters {
    pub home_id: String,
    pub room_id: String,
    pub mode: Mode,
    pub temp_tenths: Option<u64>,
    pub endtime: Option<usize>,
}

/// The wire mapping of setpoint parameters: the required fields always, each
/// optional field exactly when it was set, the temperature rendered from
/// tenths of a degree.
pub open spec fn spec_to_params(p: Parameters) -> Map<Seq<char>, Seq<char>> {
    let base = Map::<Seq<char>, Seq<char>>::empty()
        .insert("home_id"@, p.home_id@)
        .insert("room_id"@, p.room_id@)
        .insert("mode"@, p.mode.display_str());
    let m1 = match p.temp_tenths {
        Some(t) => base.insert("temp"@, tenths_str(t as nat)),
        None => base,
    };
    match p.endtime {
        Some(v) => m1.insert("endtime"@, dec_str(v as nat)),
        None => m1,
    }
}

impl Parameters {
    /// Parameters for the given home, room and mode, with nothing optional
    /// set.
    pub fn new(home_id: &str, room_id: &str, mode: Mode) -> (r: Self)
        ensures
            r.home_id@ == home_id@,
            r.room_id@ == room_id@,
            r.mode == mode,
            r.temp_tenths is None,
            r.endtime is None,
    {
        Parameters {
            home_id: home_id.to_owned(),
            room_id: room_id.to_owned(),
            mode,
            temp_tenths: None,
            endtime: None,
        }
    }

    /// The same parameters with the target temperature set, given in tenths
    /// of a degree.
    pub fn temp(self, temp_tenths: u64) -> (r: Self)
        ensures
            r == (Parameters { temp_tenths: Some(temp_tenths), ..self }),
    {
        Parameters { temp_tenths: Some(temp_tenths), ..self }
    }

    /// The same parameters with the end time set.
    pub fn date_end(self, date_end: usize) -> (r: Self)
        ensures
            r == (Parameters { endtime: Some(date_end), ..self }),
    {
        Parameters { endtime: Some(date_end), ..self }
    }

    /// The wire mapping of the parameters: required fields always, optional
    /// fields exactly when set, each in its canonical rendering.
    pub fn to_params(&self) -> (r: ParamMap)
        ensures
            r.wf(),
            r@ == spec_to_params(*self),
    {
        let mut m = ParamMap::new();
        m.insert("home_id", self.home_id.clone());
        m.insert("room_id", self.room_id.clone());
        m.insert("mode", self.mode.display_name().to_owned());
        if let Some(t) = self.temp_tenths {
            m.insert("temp", tenths_to_string(t));
        }
        if let Some(v) = self.endtime {
            m.insert("endtime", u64_to_dec_string(v as u64));
        }
        proof {
            assert(m@ =~= spec_to_params(*self));
        }
        m
    }
}

/// The typed success response of a setpoint write.
#[derive(Debug)]
pub struct Response {
    pub status: String,
    pub time_server: u64,
}

/// Decode a setpoint-write success body; fails with
/// `JsonDeserializationFailed` exactly when the body does not have the
/// status-response shape, chaining the decode failure as the error's cause.
pub fn response_from_body(body: &str) -> (r: Result<Response, Error>)
    ensures
        r matches Ok(resp) ==> (status_response_of(body@) matches Some(q) && resp.status@ == q.0
            && resp.time_server == q.1),
        r matches Err(e) ==> e.kind is JsonDeserializationFailed && has_some_text_cause(e)
            && status_response_of(body@) is None,
{
    match transport::parse_status_response(body) {
        Ok((status, time_server)) => Ok(Response { status, time_server }),
        Err(cause) => Err(Error::with_text_cause(ErrorKind::JsonDeserializationFailed, cause)),
    }
}

/// Write a room setpoint: one request/response round trip on the
/// authenticated call path, decoding the success body into the typed
/// response.
pub fn set_room_thermpoint(client: &AuthenticatedClient, parameters: &Parameters) -> (r: Result<
    Response,
    Error,
>)
    ensures
        r matches Err(e) ==> is_endpoint_failure_for(e.kind, "setroomthermpoint"@),
{
    let params = parameters.to_params();
    let url = url_join(&client.base_url, "/api/setroomthermpoint");
    match client.call("setroomthermpoint", url.as_str(), params) {
        Ok(body) => response_from_body(body.as_str()),
        Err(e) => Err(e),
    }
}

} // verus!
