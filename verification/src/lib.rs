//! A typed client for the Netatmo home-automation REST API: it exchanges
//! user credentials for an OAuth2 bearer token, then issues authenticated
//! form-encoded POST calls against a fixed set of endpoints, classifying
//! failures by HTTP status and API-level error code.
//!
//! The request/response pipeline is verified: the parameter-to-wire
//! mappings, scope encoding, token injection and status classification all
//! carry proved contracts, while the HTTP transport and the JSON codec stand
//! behind a small trusted boundary.

pub mod client;
pub mod errors;

pub use client::authenticate::{self, Scope};
pub use client::get_home_status;
pub use client::get_homes_data;
pub use client::get_measure;
pub use client::get_station_data;
pub use client::set_room_thermpoint;
pub use client::wire;
pub use client::{
    classify_status, error_for_known_status, error_from_error_body, response_outcome,
    AuthenticatedClient, ClientCredentials, Netatmo, NetatmoClient, StatusClass,
    UnauthenticatedClient,
};
