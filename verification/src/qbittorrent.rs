//! The addresses and form fields of qBittorrent's web API, for callers that
//! hold the connection values themselves.

use vstd::prelude::*;
use crate::apps::{endpoint, endpoint_text, fields_view, Protocol};
pub use crate::apps::qbittorrent::{QB_LOGIN_ENDPOINT, QB_SET_PREFERENCES_ENDPOINT};
use crate::apps::qbittorrent::{login_fields, preference_fields};
use crate::text::{append_decimal, decimal_digits};

verus! {

/// The two names of the login form differ, so the form has one value for
/// each.
pub proof fn lemma_login_names_differ()
    ensures
        "username"@ != "password"@,
{
    reveal_strlit("username");
    reveal_strlit("password");
    assert("username"@[0] == 'u');
    assert("password"@[0] == 'p');
}

/// The form fields of a login: `username` and `password`, each once.
pub fn qb_login_parameters(username: &str, password: &str) -> (params: Vec<(String, String)>)
    ensures
        fields_view(params@) == login_fields(username@, password@),
        params@.len() == 2,
        params@[0].0@ != params@[1].0@,
{
    let mut params: Vec<(String, String)> = Vec::new();
    params.push((String::from_str("username"), String::from_str(username)));
    params.push((String::from_str("password"), String::from_str(password)));
    proof {
        lemma_login_names_differ();
        assert(fields_view(params@) =~= login_fields(username@, password@));
    }
    params
}

/// The address that a login is posted to.
pub fn qb_login_endpoint(protocol: Protocol, hostname: &str, port: u16) -> (url: String)
    ensures
        url@ == endpoint_text(protocol, hostname@, port, QB_LOGIN_ENDPOINT@),
{
    endpoint(protocol, hostname, port, QB_LOGIN_ENDPOINT)
}

/// The address that new preferences are posted to.
pub fn qb_set_preference_endpoint(protocol: Protocol, hostname: &str, port: u16) -> (url: String)
    ensures
        url@ == endpoint_text(protocol, hostname@, port, QB_SET_PREFERENCES_ENDPOINT@),
{
    endpoint(protocol, hostname, port, QB_SET_PREFERENCES_ENDPOINT)
}

/// The form with the one field `json`, whose value is the JSON object that
/// states the listening port: `{"listen_port":51413 }` for the port 51413.
pub fn get_list_port_json(port: u16) -> (value: Vec<(String, String)>)
    ensures
        fields_view(value@) == preference_fields(port),
        value@.len() == 1,
        value@[0].0@ == "json"@,
        value@[0].1@ == "{\"listen_port\":"@ + decimal_digits(port as nat) + " }"@,
{
    let mut entry = String::from_str("{\"listen_port\":");
    append_decimal(&mut entry, port as u128);
    entry.append(" }");
    let mut value: Vec<(String, String)> = Vec::new();
    value.push((String::from_str("json"), entry));
    assert(fields_view(value@) =~= preference_fields(port));
    value
}

} // verus!
