//! The home-structure endpoint: typed request parameters and their exact
//! wire mapping.

use vstd::prelude::*;
use vstd::string::*;

use crate::client::wire::ParamMap;
use crate::client::{url_join, AuthenticatedClient};
use crate::errors::{is_call_failure_for, Error};

verus! {

/// A kind of gateway device that a home may hold.
#[derive(Debug, Clone, Copy, PartialEq, Eq, Structural)]
pub enum GatewayType {
    ThermostatValve,
    Welcome,
    Presence,
}

impl GatewayType {
    /// The gateway type's wire form.
    pub open spec fn display_str(self) -> Seq<char> {
        match self {
            GatewayType::ThermostatValve => "NAPLUG"@,
            GatewayType::Welcome => "Humidity"@,
            GatewayType::Presence => "NOC"@,
        }
    }

    /// Render the gateway type in its wire form.
    pub fn display_name(&self) -> (r: &'static str)
        ensures
            r@ == self.display_str(),
    {
        match self {
            GatewayType::ThermostatValve => "NAPLUG",
            GatewayType::Welcome => "Humidity",
            GatewayType::Presence => "NOC",
        }
    }
}

/// The comma-joined rendering of a gateway-type list, in the order given.
pub open spec fn spec_gateway_join(types: Seq<GatewayType>) -> Seq<char>
    decreases types.len(),
{
    if types.len() == 0 {
        Seq::empty()
    } else if types.len() == 1 {
        types[0].display_str()
    } else {
        spec_gateway_join(types.drop_last()) + ","@ + types.last().display_str()
    }
}

/// Join a gateway-type list into its comma-separated wire form, keeping the
/// order given.
pub fn join_gateway_types(types: &Vec<GatewayType>) -> (r: String)
    ensures
        r@ == spec_gateway_join(types@),
{
    let mut r = String::new();
    let mut i: usize = 0;
    while i < types.len()
        invariant
            i <= types@.len(),
            r@ == spec_gateway_join(types@.take(i as int)),
        decreases types@.len() - i,
    {
        if i > 0 {
            r.append(",");
        }
        r.append(types[i].display_name());
        proof {
            assert(types@.take(i as int + 1).drop_last() =~= types@.take(i as int));
            assert(types@.take(i as int + 1).last() == types@[i as int]);
            if i == 0 {
                assert(r@ =~= spec_gateway_join(types@.take(1)));
            }
        }
        i += 1;
    }
    proof {
        assert(types@.take(types@.len() as int) =~= types@);
    }
    r
}

/// The parameters of a home-structure request: both fields are optional.
#[derive(Debug)]
pub struct Parameters {
    pub home_id: Option<String>,
    pub gateway_types: Option<Vec<GatewayType>>,
}

/// The wire mapping of home-structure parameters: each field is present
/// exactly when it was set, the gateway types comma-joined.
pub open spec fn spec_to_params(p: Parameters) -> Map<Seq<char>, Seq<char>> {
    let with_home = match p.home_id {
        Some(h) => Map::<Seq<char>, Seq<char>>::empty().insert("home_id"@, h@),
        None => Map::<Seq<char>, Seq<char>>::empty(),
    };
    match p.gateway_types {
        Some(ts) => with_home.insert("gateway_types"@, spec_gateway_join(ts@)),
        None => with_home,
    }
}

impl Parameters {
    /// Empty parameters: nothing set.
    pub fn new() -> (r: Self)
        ensures
            r.home_id is None,
            r.gateway_types is None,
    {
        Parameters { home_id: None, gateway_types: None }
    }

    /// The same parameters with the home identifier set.
    pub fn home_id(self, home_id: &str) -> (r: Self)
        ensures
            r.home_id matches Some(h) && h@ == home_id@,
            r.gateway_types == self.gateway_types,
    {
        Parameters { home_id: Some(home_id.to_owned()), ..self }
    }

    /// The same parameters with the gateway-type filter set.
    pub fn gateway_types(self, gateway_types: Vec<GatewayType>) -> (r: Self)
        ensures
            r.home_id == self.home_id,
            r.gateway_types matches Some(ts) && ts@ == gateway_types@,
    {
        Parameters { gateway_types: Some(gateway_types), ..self }
    }

    /// The wire mapping of the parameters: a field is present exactly when it
    /// was set, in its canonical rendering.
    pub fn to_params(&self) -> (r: ParamMap)
        ensures
            r.wf(),
            r@ == spec_to_params(*self),
    {
        let mut m = ParamMap::new();
        if let Some(home_id) = &self.home_id {
            m.insert("home_id", home_id.clone());
        }
        if let Some(gateway_types) = &self.gateway_types {
            m.insert("gateway_types", join_gateway_types(gateway_types));
        }
        proof {
            assert(m@ =~= spec_to_params(*self));
        }
        m
    }
}

/// Fetch the home structure: one request/response round trip on the
/// authenticated call path, returning the raw success body. The typed
/// home-structure payload carries floating-point readings and so stands
/// outside the verified core.
pub(crate) fn get_homes_data(client: &AuthenticatedClient, parameters: &Parameters) -> (r: Result<
    String,
    Error,
>)
    ensures
        r matches Err(e) ==> is_call_failure_for(e.kind, "homesdata"@),
{
    let params = parameters.to_params();
    let url = url_join(&client.base_url, "/api/homesdata");
    client.call("homesdata", url.as_str(), params)
}

} // verus!
