//! The weather-station endpoint: the request carries the device identifier
//! alone.

use vstd::prelude::*;

use crate::client::wire::ParamMap;
use crate::client::{url_join, AuthenticatedClient};
use crate::errors::{is_call_failure_for, Error};

verus! {

/// The wire mapping of a station-data request: the device identifier alone.
pub open spec fn spec_station_params(device_id: Seq<char>) -> Map<Seq<char>, Seq<char>> {
    Map::<Seq<char>, Seq<char>>::empty().insert("device_id"@, device_id)
}

/// Build the parameter map of a station-data request.
pub fn station_params(device_id: &str) -> (r: ParamMap)
    ensures
        r.wf(),
        r@ == spec_station_params(device_id@),
{
    let mut m = ParamMap::new();
    m.insert("device_id", device_id.to_owned());
    proof {
        assert(m@ =~= spec_station_params(device_id@));
    }
    m
}

/// Fetch station data: one request/response round trip on the authenticated
/// call path, returning the raw success body. The typed station-data payload
/// carries floating-point readings and so stands outside the verified core.
pub(crate) fn get_station_data(client: &AuthenticatedClient, device_id: &str) -> (r: Result<
    String,
    Error,
>)
    ensures
        r matches Err(e) ==> is_call_failure_for(e.kind, "getstationsdata"@),
{
    let params = station_params(device_id);
    let url = url_join(&client.base_url, "/api/getstationsdata");
    client.call("getstationsdata", url.as_str(), params)
}

} // verus!
