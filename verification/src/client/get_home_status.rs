//! The home-status endpoint: typed request parameters and their exact wire
//! mapping.

use vstd::prelude::*;

use crate::client::wire::ParamMap;
use crate::client::{url_join, AuthenticatedClient};
use crate::errors::{is_call_failure_for, Error};

pub use crate::client::get_homes_data::GatewayType;

use crate::client::get_homes_data::{join_gateway_types, spec_gateway_join};

verus! {

/// The parameters of a home-status request: both fields are optional.
#[derive(Debug)]
pub struct Parameters {
    pub home_id: Option<String>,
    pub device_types: Option<Vec<GatewayType>>,
}

/// The wire mapping of home-status parameters: each field is present exactly
/// when it was set, the device types comma-joined.
pub open spec fn spec_to_params(p: Parameters) -> Map<Seq<char>, Seq<char>> {
    let with_home = match p.home_id {
        Some(h) => Map::<Seq<char>, Seq<char>>::empty().insert("home_id"@, h@),
        None => Map::<Seq<char>, Seq<char>>::empty(),
    };
    match p.device_types {
        Some(ts) => with_home.insert("device_types"@, spec_gateway_join(ts@)),
        None => with_home,
    }
}

impl Parameters {
    /// Empty parameters: nothing set.
    pub fn new() -> (r: Self)
        ensures
            r.home_id is None,
            r.device_types is None,
    {
        Parameters { home_id: None, device_types: None }
    }

    /// The same parameters with the home identifier set.
    pub fn home_id(self, home_id: &str) -> (r: Self)
        ensures
            r.home_id matches Some(h) && h@ == home_id@,
            r.device_types == self.device_types,
    {
        Parameters { home_id: Some(home_id.to_owned()), ..self }
    }

    /// The same parameters with the device-type filter set.
    pub fn device_types(self, device_types: Vec<GatewayType>) -> (r: Self)
        ensures
            r.home_id == self.home_id,
            r.device_types matches Some(ts) && ts@ == device_types@,
    {
        Parameters { device_types: Some(device_types), ..self }
    }

    /// The wire mapping of the parameters: a field is present exactly when it
    /// was set, in its canonical rendering.
    pub fn to_params(&self) -> (r: ParamMap)
        ensures
            r.wf(),
            r@ == spec_to_params(*self),
    {
        let mut m = ParamMap::new();
        if let Some(home_id) = &self.home_id {
            m.insert("home_id", home_id.clone());
        }
        if let Some(device_types) = &self.device_types {
            m.insert("device_types", join_gateway_types(device_types));
        }
        proof {
            assert(m@ =~= spec_to_params(*self));
        }
        m
    }
}

/// Fetch the home status: one request/response round trip on the
/// authenticated call path, returning the raw success body. The typed
/// home-status payload carries floating-point readings and so stands outside
/// the verified core.
pub(crate) fn get_home_status(client: &AuthenticatedClient, parameters: &Parameters) -> (r: Result<
    String,
    Error,
>)
    ensures
        r matches Err(e) ==> is_call_failure_for(e.kind, "homestatus"@),
{
    let params = parameters.to_params();
    let url = url_join(&client.base_url, "/api/homestatus");
    client.call("homestatus", url.as_str(), params)
}

} // verus!
