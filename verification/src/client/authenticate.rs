//! Scopes, tokens, and the construction and decoding of token requests and
//! responses.

use vstd::prelude::*;
use vstd::string::*;

use crate::client::transport;
use crate::client::transport::token_fields_of;
use crate::client::wire::{str_eq, ParamMap};
use crate::client::{url_join, UnauthenticatedClient};
use crate::errors::{has_some_text_cause, is_endpoint_failure_for, Error, ErrorKind};

verus! {

/// A named permission granted by the authenticated user, required to access
/// certain endpoints.
#[derive(Debug, Clone, Copy, PartialEq, Eq, Structural)]
pub enum Scope {
    ReadStation,
    ReadThermostat,
    WriteThermostat,
    ReadCamera,
    WriteCamera,
    AccessCamera,
    ReadPresence,
    AccessPresence,
    ReadHomecoach,
}

impl Scope {
    /// The scope's wire form: the snake_case name the API expects.
    pub open spec fn wire_str(self) -> Seq<char> {
        match self {
            Scope::ReadStation => "read_station"@,
            Scope::ReadThermostat => "read_thermostat"@,
            Scope::WriteThermostat => "write_thermostat"@,
            Scope::ReadCamera => "read_camera"@,
            Scope::WriteCamera => "write_camera"@,
            Scope::AccessCamera => "access_camera"@,
            Scope::ReadPresence => "read_presence"@,
            Scope::AccessPresence => "access_presence"@,
            Scope::ReadHomecoach => "read_homecoach"@,
        }
    }

    /// The scope's human-readable display form.
    pub open spec fn display_str(self) -> Seq<char> {
        match self {
            Scope::ReadStation => "ReadStation"@,
            Scope::ReadThermostat => "ReadThermostat"@,
            Scope::WriteThermostat => "WriteThermostat"@,
            Scope::ReadCamera => "ReadCamera"@,
            Scope::WriteCamera => "WriteCamera"@,
            Scope::AccessCamera => "AccessCamera"@,
            Scope::ReadPresence => "ReadPresence"@,
            Scope::AccessPresence => "AccessPresence"@,
            Scope::ReadHomecoach => "ReadHomecoach"@,
        }
    }

    /// The scope that a wire form names, if any.
    pub open spec fn spec_from_wire(s: Seq<char>) -> Option<Scope> {
        if s == "read_station"@ {
            Some(Scope::ReadStation)
        } else if s == "read_thermostat"@ {
            Some(Scope::ReadThermostat)
        } else if s == "write_thermostat"@ {
            Some(Scope::WriteThermostat)
        } else if s == "read_camera"@ {
            Some(Scope::ReadCamera)
        } else if s == "write_camera"@ {
            Some(Scope::WriteCamera)
        } else if s == "access_camera"@ {
            Some(Scope::AccessCamera)
        } else if s == "read_presence"@ {
            Some(Scope::ReadPresence)
        } else if s == "access_presence"@ {
            Some(Scope::AccessPresence)
        } else if s == "read_homecoach"@ {
            Some(Scope::ReadHomecoach)
        } else {
            None
        }
    }

    /// The snake_case form the API expects on the wire.
    pub fn to_scope_str(&self) -> (r: &'static str)
        ensures
            r@ == self.wire_str(),
    {
        match self {
            Scope::ReadStation => "read_station",
            Scope::ReadThermostat => "read_thermostat",
            Scope::WriteThermostat => "write_thermostat",
            Scope::ReadCamera => "read_camera",
            Scope::WriteCamera => "write_camera",
            Scope::AccessCamera => "access_camera",
            Scope::ReadPresence => "read_presence",
            Scope::AccessPresence => "access_presence",
            Scope::ReadHomecoach => "read_homecoach",
        }
    }

    /// The human-readable name of the scope.
    pub fn display_name(&self) -> (r: &'static str)
        ensures
            r@ == self.display_str(),
    {
        match self {
            Scope::ReadStation => "ReadStation",
            Scope::ReadThermostat => "ReadThermostat",
            Scope::WriteThermostat => "WriteThermostat",
            Scope::ReadCamera => "ReadCamera",
            Scope::WriteCamera => "WriteCamera",
            Scope::AccessCamera => "AccessCamera",
            Scope::ReadPresence => "ReadPresence",
            Scope::AccessPresence => "AccessPresence",
            Scope::ReadHomecoach => "ReadHomecoach",
        }
    }

    /// Parse a wire form back into its scope.
    pub fn from_wire(s: &str) -> (r: Option<Scope>)
        ensures
            r == Scope::spec_from_wire(s@),
    {
        if str_eq(s, "read_station") {
            Some(Scope::ReadStation)
        } else if str_eq(s, "read_thermostat") {
            Some(Scope::ReadThermostat)
        } else if str_eq(s, "write_thermostat") {
            Some(Scope::WriteThermostat)
        } else if str_eq(s, "read_camera") {
            Some(Scope::ReadCamera)
        } else if str_eq(s, "write_camera") {
            Some(Scope::WriteCamera)
        } else if str_eq(s, "access_camera") {
            Some(Scope::AccessCamera)
        } else if str_eq(s, "read_presence") {
            Some(Scope::ReadPresence)
        } else if str_eq(s, "access_presence") {
            Some(Scope::AccessPresence)
        } else if str_eq(s, "read_homecoach") {
            Some(Scope::ReadHomecoach)
        } else {
            None
        }
    }
}

/// Every scope's wire form parses back to that scope: the scope-to-wire
/// mapping is injective, and decoding inverts encoding.
pub proof fn lemma_scope_wire_round_trip(sc: Scope)
    ensures
        Scope::spec_from_wire(sc.wire_str()) == Some(sc),
{
    reveal_strlit("read_station");
    reveal_strlit("read_thermostat");
    reveal_strlit("write_thermostat");
    reveal_strlit("read_camera");
    reveal_strlit("write_camera");
    reveal_strlit("access_camera");
    reveal_strlit("read_presence");
    reveal_strlit("access_presence");
    reveal_strlit("read_homecoach");
    assert("read_station"@.len() == 12 && "read_station"@[0] == 'r');
    assert("read_thermostat"@.len() == 15 && "read_thermostat"@[0] == 'r');
    assert("write_thermostat"@.len() == 16 && "write_thermostat"@[0] == 'w');
    assert("read_camera"@.len() == 11 && "read_camera"@[0] == 'r');
    assert("write_camera"@.len() == 12 && "write_camera"@[0] == 'w');
    assert("access_camera"@.len() == 13 && "access_camera"@[0] == 'a');
    assert("read_presence"@.len() == 13 && "read_presence"@[0] == 'r');
    assert("access_presence"@.len() == 15 && "access_presence"@[0] == 'a');
    assert("read_homecoach"@.len() == 14 && "read_homecoach"@[0] == 'r');
    match sc {
        Scope::ReadStation => assert(Scope::spec_from_wire(sc.wire_str()) == Some(sc)),
        Scope::ReadThermostat => assert(Scope::spec_from_wire(sc.wire_str()) == Some(sc)),
        Scope::WriteThermostat => assert(Scope::spec_from_wire(sc.wire_str()) == Some(sc)),
        Scope::ReadCamera => assert(Scope::spec_from_wire(sc.wire_str()) == Some(sc)),
        Scope::WriteCamera => assert(Scope::spec_from_wire(sc.wire_str()) == Some(sc)),
        Scope::AccessCamera => assert(Scope::spec_from_wire(sc.wire_str()) == Some(sc)),
        Scope::ReadPresence => assert(Scope::spec_from_wire(sc.wire_str()) == Some(sc)),
        Scope::AccessPresence => assert(Scope::spec_from_wire(sc.wire_str()) == Some(sc)),
        Scope::ReadHomecoach => assert(Scope::spec_from_wire(sc.wire_str()) == Some(sc)),
    }
}

/// The dot-joined wire form of a scope list, in the order given. An empty
/// list joins to the empty string.
pub open spec fn spec_scope_join(scopes: Seq<Scope>) -> Seq<char>
    decreases scopes.len(),
{
    if scopes.len() == 0 {
        Seq::empty()
    } else if scopes.len() == 1 {
        scopes[0].wire_str()
    } else {
        spec_scope_join(scopes.drop_last()) + "."@ + scopes.last().wire_str()
    }
}

/// Join a scope list into the API's dot-separated wire form, keeping the
/// order given.
pub fn join_scopes(scopes: &Vec<Scope>) -> (r: String)
    ensures
        r@ == spec_scope_join(scopes@),
{
    let mut r = String::new();
    let mut i: usize = 0;
    while i < scopes.len()
        invariant
            i <= scopes@.len(),
            r@ == spec_scope_join(scopes@.take(i as int)),
        decreases scopes@.len() - i,
    {
        if i > 0 {
            r.append(".");
        }
        r.append(scopes[i].to_scope_str());
        proof {
            assert(scopes@.take(i as int + 1).drop_last() =~= scopes@.take(i as int));
            assert(scopes@.take(i as int + 1).last() == scopes@[i as int]);
            if i == 0 {
                assert(r@ =~= spec_scope_join(scopes@.take(1)));
            }
        }
        i += 1;
    }
    proof {
        assert(scopes@.take(scopes@.len() as int) =~= scopes@);
    }
    r
}

/// An access token produced once by authentication, immutable thereafter.
#[derive(Debug)]
pub struct Token {
    pub access_token: String,
    pub refresh_token: String,
    pub scope: Vec<Scope>,
    pub expires_in: u64,
    pub expire_in: u64,
}

/// The scope list that a list of wire forms names; `None` when any entry is
/// not a known wire form.
pub open spec fn spec_scopes_from_wire(ss: Seq<Seq<char>>) -> Option<Seq<Scope>>
    decreases ss.len(),
{
    if ss.len() == 0 {
        Some(Seq::empty())
    } else {
        match spec_scopes_from_wire(ss.drop_last()) {
            None => None,
            Some(front) => match Scope::spec_from_wire(ss.last()) {
                None => None,
                Some(sc) => Some(front.push(sc)),
            },
        }
    }
}

proof fn lemma_scopes_from_wire_none(ss: Seq<Seq<char>>, k: int)
    requires
        0 <= k <= ss.len(),
        spec_scopes_from_wire(ss.take(k)) is None,
    ensures
        spec_scopes_from_wire(ss) is None,
    decreases ss.len() - k,
{
    if k < ss.len() {
        assert(ss.take(k + 1).drop_last() =~= ss.take(k));
        lemma_scopes_from_wire_none(ss, k + 1);
    } else {
        assert(ss.take(k) =~= ss);
    }
}

/// Parse a list of wire forms into scopes; fails exactly when some entry is
/// not a known wire form.
pub fn scopes_from_wire(ss: &Vec<String>) -> (r: Option<Vec<Scope>>)
    ensures
        match r {
            Some(v) => spec_scopes_from_wire(ss.deep_view()) == Some(v@),
            None => spec_scopes_from_wire(ss.deep_view()) is None,
        },
{
    let mut out: Vec<Scope> = Vec::new();
    let mut i: usize = 0;
    while i < ss.len()
        invariant
            i <= ss@.len(),
            spec_scopes_from_wire(ss.deep_view().take(i as int)) == Some(out@),
        decreases ss@.len() - i,
    {
        proof {
            assert(ss.deep_view().take(i as int + 1).drop_last() =~= ss.deep_view().take(
                i as int,
            ));
            assert(ss.deep_view().take(i as int + 1).last() == ss@[i as int]@);
        }
        match Scope::from_wire(ss[i].as_str()) {
            Some(sc) => {
                out.push(sc);
            },
            None => {
                proof {
                    lemma_scopes_from_wire_none(ss.deep_view(), i as int + 1);
                }
                return None;
            },
        }
        i += 1;
    }
    proof {
        assert(ss.deep_view().take(ss@.len() as int) =~= ss.deep_view());
    }
    Some(out)
}

/// Build a token from decoded response fields; fails exactly when a scope
/// entry is not a known wire form.
pub fn token_from_fields(
    access_token: String,
    refresh_token: String,
    scopes: &Vec<String>,
    expires_in: u64,
    expire_in: u64,
) -> (r: Option<Token>)
    ensures
        match r {
            Some(t) => {
                &&& spec_scopes_from_wire(scopes.deep_view()) == Some(t.scope@)
                &&& t.access_token@ == access_token@
                &&& t.refresh_token@ == refresh_token@
                &&& t.expires_in == expires_in
                &&& t.expire_in == expire_in
            },
            None => spec_scopes_from_wire(scopes.deep_view()) is None,
        },
{
    match scopes_from_wire(scopes) {
        Some(scope) => Some(
            Token { access_token, refresh_token, scope, expires_in, expire_in },
        ),
        None => None,
    }
}

/// The exact parameter map of a token request: client credentials, user
/// credentials, the fixed password grant type, and the dot-joined scopes.
pub open spec fn spec_token_request(
    client_id: Seq<char>,
    client_secret: Seq<char>,
    username: Seq<char>,
    password: Seq<char>,
    scopes: Seq<Scope>,
) -> Map<Seq<char>, Seq<char>> {
    Map::empty()
        .insert("client_id"@, client_id)
        .insert("client_secret"@, client_secret)
        .insert("username"@, username)
        .insert("password"@, password)
        .insert("grant_type"@, "password"@)
        .insert("scope"@, spec_scope_join(scopes))
}

/// Build the parameter map of a token request.
pub fn token_request_params(
    client_id: &str,
    client_secret: &str,
    username: &str,
    password: &str,
    scopes: &Vec<Scope>,
) -> (r: ParamMap)
    ensures
        r.wf(),
        r@ == spec_token_request(client_id@, client_secret@, username@, password@, scopes@),
{
    let mut m = ParamMap::new();
    m.insert("client_id", client_id.to_owned());
    m.insert("client_secret", client_secret.to_owned());
    m.insert("username", username.to_owned());
    m.insert("password", password.to_owned());
    m.insert("grant_type", "password".to_owned());
    m.insert("scope", join_scopes(scopes));
    proof {
        assert(m@ =~= spec_token_request(
            client_id@,
            client_secret@,
            username@,
            password@,
            scopes@,
        ));
    }
    m
}

/// The token's fields are exactly the given decoded fields, the scopes parsed
/// from their wire forms.
pub open spec fn token_matches_fields(
    t: Token,
    fields: (Seq<char>, Seq<char>, Seq<Seq<char>>, u64, u64),
) -> bool {
    &&& t.access_token@ == fields.0
    &&& t.refresh_token@ == fields.1
    &&& spec_scopes_from_wire(fields.2) == Some(t.scope@)
    &&& t.expires_in == fields.3
    &&& t.expire_in == fields.4
}

/// The token is the faithful decode of some token-endpoint body: that body
/// decodes, and the token's fields are exactly the decoded fields.
pub open spec fn is_decoded_token(t: Token) -> bool {
    exists|body: Seq<char>| (#[trigger] token_fields_of(body)) matches Some(q)
        && token_matches_fields(t, q)
}

/// Decode a token-endpoint success body into a token; fails with
/// `JsonDeserializationFailed` exactly when the body does not have the token
/// shape or names an unknown scope, chaining the reason as the error's cause.
pub fn token_from_body(body: &str) -> (r: Result<Token, Error>)
    ensures
        r matches Ok(t) ==> (token_fields_of(body@) matches Some(q) && token_matches_fields(
            t,
            q,
        )),
        r matches Ok(t) ==> is_decoded_token(t),
        r matches Err(e) ==> {
            &&& e.kind is JsonDeserializationFailed
            &&& has_some_text_cause(e)
            &&& (token_fields_of(body@) is None || (token_fields_of(body@) matches Some(q)
                && spec_scopes_from_wire(q.2) is None))
        },
{
    match transport::parse_token_fields(body) {
        Ok((access_token, refresh_token, scope_strs, expires_in, expire_in)) => {
            match token_from_fields(access_token, refresh_token, &scope_strs, expires_in, expire_in) {
                Some(t) => {
                    proof {
                        assert((#[trigger] token_fields_of(body@)) matches Some(q)
                            && token_matches_fields(t, q));
                    }
                    Ok(t)
                },
                None => Err(
                    Error::with_text_cause(
                        ErrorKind::JsonDeserializationFailed,
                        "a scope is not a known wire form".to_owned(),
                    ),
                ),
            }
        },
        Err(cause) => Err(Error::with_text_cause(ErrorKind::JsonDeserializationFailed, cause)),
    }
}

/// Exchange credentials for a token: build the token request from the
/// client's credentials and the given user credentials and scopes, submit it
/// to the client's token endpoint on the unauthenticated call path, and
/// decode the success body.
pub(crate) fn get_token(
    uc: &UnauthenticatedClient,
    username: &str,
    password: &str,
    scopes: &Vec<Scope>,
) -> (r: Result<Token, Error>)
    ensures
        r matches Ok(t) ==> is_decoded_token(t),
        r matches Err(e) ==> is_endpoint_failure_for(e.kind, "authenticate"@),
{
    let params = token_request_params(
        uc.client_credentials.client_id.as_str(),
        uc.client_credentials.client_secret.as_str(),
        username,
        password,
        scopes,
    );
    let url = url_join(&uc.base_url, "/oauth2/token");
    match uc.call("authenticate", url.as_str(), &params) {
        Ok(body) => token_from_body(body.as_str()),
        Err(e) => Err(e),
    }
}

} // verus!
