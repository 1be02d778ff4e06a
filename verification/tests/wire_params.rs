use netatmo_api::authenticate::{join_scopes, token_request_params, Scope};
use netatmo_api::get_home_status;
use netatmo_api::get_homes_data;
use netatmo_api::get_homes_data::{join_gateway_types, GatewayType};
use netatmo_api::get_measure;
use netatmo_api::get_measure::{join_types, Scale, Type};
use netatmo_api::set_room_thermpoint;
use netatmo_api::set_room_thermpoint::Mode;
use netatmo_api::wire::{bool_to_string, tenths_to_string, u64_to_dec_string, ParamMap};

#[test]
fn scope_wire_strings() {
    assert_eq!(Scope::ReadStation.to_scope_str(), "read_station");
    assert_eq!(Scope::ReadThermostat.to_scope_str(), "read_thermostat");
    assert_eq!(Scope::WriteThermostat.to_scope_str(), "write_thermostat");
    assert_eq!(Scope::ReadCamera.to_scope_str(), "read_camera");
    assert_eq!(Scope::WriteCamera.to_scope_str(), "write_camera");
    assert_eq!(Scope::AccessCamera.to_scope_str(), "access_camera");
    assert_eq!(Scope::ReadPresence.to_scope_str(), "read_presence");
    assert_eq!(Scope::AccessPresence.to_scope_str(), "access_presence");
    assert_eq!(Scope::ReadHomecoach.to_scope_str(), "read_homecoach");
}

#[test]
fn scope_display_names() {
    assert_eq!(Scope::ReadStation.display_name(), "ReadStation");
    assert_eq!(Scope::WriteThermostat.display_name(), "WriteThermostat");
    assert_eq!(Scope::ReadHomecoach.display_name(), "ReadHomecoach");
}

#[test]
fn scope_from_wire_round_trip() {
    let all = vec![
        Scope::ReadStation,
        Scope::ReadThermostat,
        Scope::WriteThermostat,
        Scope::ReadCamera,
        Scope::WriteCamera,
        Scope::AccessCamera,
        Scope::ReadPresence,
        Scope::AccessPresence,
        Scope::ReadHomecoach,
    ];
    for sc in all {
        assert_eq!(Scope::from_wire(sc.to_scope_str()), Some(sc));
    }
    assert_eq!(Scope::from_wire("read_everything"), None);
    assert_eq!(Scope::from_wire(""), None);
}

#[test]
fn scopes_join_in_order() {
    assert_eq!(join_scopes(&vec![]), "");
    assert_eq!(join_scopes(&vec![Scope::ReadStation]), "read_station");
    assert_eq!(
        join_scopes(&vec![Scope::WriteThermostat, Scope::ReadStation, Scope::ReadCamera]),
        "write_thermostat.read_station.read_camera"
    );
}

#[test]
fn decimal_rendering() {
    assert_eq!(u64_to_dec_string(0), "0");
    assert_eq!(u64_to_dec_string(7), "7");
    assert_eq!(u64_to_dec_string(10), "10");
    assert_eq!(u64_to_dec_string(1234567890), "1234567890");
    assert_eq!(bool_to_string(true), "true");
    assert_eq!(bool_to_string(false), "false");
}

#[test]
fn tenths_rendering() {
    assert_eq!(tenths_to_string(0), "0");
    assert_eq!(tenths_to_string(190), "19");
    assert_eq!(tenths_to_string(195), "19.5");
    assert_eq!(tenths_to_string(205), "20.5");
    assert_eq!(tenths_to_string(3), "0.3");
}

#[test]
fn param_map_insert_overwrites() {
    let mut m = ParamMap::new();
    m.insert("access_token", "stale".to_string());
    m.insert("other", "kept".to_string());
    m.insert("access_token", "fresh".to_string());
    assert_eq!(m.get("access_token"), Some(&"fresh".to_string()));
    assert_eq!(m.get("other"), Some(&"kept".to_string()));
    assert_eq!(m.get("missing"), None);
    assert_eq!(m.len(), 2);
}

#[test]
fn measure_params_required_and_optional() {
    let p = get_measure::Parameters::new(
        "70:ee:50:00:00:aa",
        Scale::Max,
        vec![Type::Temperature, Type::CO2],
    );
    let m = p.to_params();
    assert_eq!(m.get("device_id"), Some(&"70:ee:50:00:00:aa".to_string()));
    assert_eq!(m.get("module_id"), Some(&"70:ee:50:00:00:aa".to_string()));
    assert_eq!(m.get("scale"), Some(&"max".to_string()));
    assert_eq!(m.get("type"), Some(&"Temperature,CO2".to_string()));
    assert_eq!(m.get("optimize"), Some(&"false".to_string()));
    assert_eq!(m.get("date_begin"), None);
    assert_eq!(m.get("date_end"), None);
    assert_eq!(m.get("limit"), None);
    assert_eq!(m.get("real_time"), None);
    assert_eq!(m.len(), 5);

    let p = get_measure::Parameters::with_module_id(
        "70:ee:50:00:00:aa",
        "02:00:00:00:00:bb",
        Scale::Min30,
        vec![Type::Humidity],
    )
        .date_begin(1556295333)
        .date_end(1556451233)
        .limit(true)
        .real_time(false);
    let m = p.to_params();
    assert_eq!(m.get("module_id"), Some(&"02:00:00:00:00:bb".to_string()));
    assert_eq!(m.get("scale"), Some(&"30min".to_string()));
    assert_eq!(m.get("type"), Some(&"Humidity".to_string()));
    assert_eq!(m.get("date_begin"), Some(&"1556295333".to_string()));
    assert_eq!(m.get("date_end"), Some(&"1556451233".to_string()));
    assert_eq!(m.get("limit"), Some(&"true".to_string()));
    assert_eq!(m.get("real_time"), Some(&"false".to_string()));
    assert_eq!(m.len(), 9);
}

#[test]
fn scale_wire_forms() {
    assert_eq!(Scale::Max.display_name(), "max");
    assert_eq!(Scale::Min30.display_name(), "30min");
    assert_eq!(Scale::Hour1.display_name(), "1hour");
    assert_eq!(Scale::Hours3.display_name(), "3hours");
    assert_eq!(Scale::Day1.display_name(), "1day");
    assert_eq!(Scale::Week1.display_name(), "1week");
    assert_eq!(Scale::Month1.display_name(), "1month");
}

#[test]
fn gateway_types_join() {
    assert_eq!(
        join_gateway_types(&vec![
            GatewayType::ThermostatValve,
            GatewayType::Welcome,
            GatewayType::Presence,
        ]),
        "NAPLUG,Humidity,NOC"
    );
    assert_eq!(join_types(&vec![]), "");
}

#[test]
fn homes_data_params_optional_only_when_set() {
    let m = get_homes_data::Parameters::new().to_params();
    assert_eq!(m.get("home_id"), None);
    assert_eq!(m.get("gateway_types"), None);
    assert_eq!(m.len(), 0);

    let m = get_homes_data::Parameters::new()
        .home_id("12ab")
        .gateway_types(vec![GatewayType::Presence, GatewayType::ThermostatValve])
        .to_params();
    assert_eq!(m.get("home_id"), Some(&"12ab".to_string()));
    assert_eq!(m.get("gateway_types"), Some(&"NOC,NAPLUG".to_string()));
    assert_eq!(m.len(), 2);
}

#[test]
fn home_status_params_optional_only_when_set() {
    let m = get_home_status::Parameters::new().to_params();
    assert_eq!(m.get("home_id"), None);
    assert_eq!(m.get("device_types"), None);
    assert_eq!(m.len(), 0);

    let m = get_home_status::Parameters::new()
        .home_id("12ab")
        .device_types(vec![get_home_status::GatewayType::Welcome])
        .to_params();
    assert_eq!(m.get("home_id"), Some(&"12ab".to_string()));
    assert_eq!(m.get("device_types"), Some(&"Humidity".to_string()));
    assert_eq!(m.len(), 2);
}

#[test]
fn thermpoint_params() {
    let m = set_room_thermpoint::Parameters::new("h1", "r7", Mode::Home).to_params();
    assert_eq!(m.get("home_id"), Some(&"h1".to_string()));
    assert_eq!(m.get("room_id"), Some(&"r7".to_string()));
    assert_eq!(m.get("mode"), Some(&"home".to_string()));
    assert_eq!(m.get("temp"), None);
    assert_eq!(m.get("endtime"), None);
    assert_eq!(m.len(), 3);

    let m = set_room_thermpoint::Parameters::new("h1", "r7", Mode::Manual)
        .temp(195)
        .date_end(1556451233)
        .to_params();
    assert_eq!(m.get("mode"), Some(&"manual".to_string()));
    assert_eq!(m.get("temp"), Some(&"19.5".to_string()));
    assert_eq!(m.get("endtime"), Some(&"1556451233".to_string()));
    assert_eq!(m.len(), 5);
}

#[test]
fn thermpoint_type_wire_forms() {
    assert_eq!(set_room_thermpoint::Type::Temperature.display_name(), "Temperature");
    assert_eq!(set_room_thermpoint::Type::Humidity.display_name(), "Humidity");
    assert_eq!(set_room_thermpoint::Type::CO2.display_name(), "CO2");
}

#[test]
fn token_request_mapping() {
    let m = token_request_params(
        "my-id",
        "my-secret",
        "user@example.com",
        "hunter2",
        &vec![Scope::ReadStation, Scope::ReadThermostat],
    );
    assert_eq!(m.get("client_id"), Some(&"my-id".to_string()));
    assert_eq!(m.get("client_secret"), Some(&"my-secret".to_string()));
    assert_eq!(m.get("username"), Some(&"user@example.com".to_string()));
    assert_eq!(m.get("password"), Some(&"hunter2".to_string()));
    assert_eq!(m.get("grant_type"), Some(&"password".to_string()));
    assert_eq!(m.get("scope"), Some(&"read_station.read_thermostat".to_string()));
    assert_eq!(m.get("access_token"), None);
    assert_eq!(m.len(), 6);
}

#[test]
fn station_params_mapping() {
    let m = netatmo_api::get_station_data::station_params("70:ee:50:00:00:aa");
    assert_eq!(m.get("device_id"), Some(&"70:ee:50:00:00:aa".to_string()));
    assert_eq!(m.len(), 1);
}
