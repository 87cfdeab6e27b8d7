use port_sync::apps::deluge::{
    generate_id, id_of_clock, Deluge, Move, Negotiation, Step, AUTH_METHOD,
    CONNECTED_METHOD, CONNECT_METHOD, GET_HOSTS_METHOD, SET_CONFIG_METHOD,
};
use port_sync::apps::{HttpRequest, HttpResponse, Protocol};
use port_sync::error::{Error, ErrorKind};
use port_sync::json::Json;
use port_sync::rpc::{RpcId, RpcOutcome, RpcResponse};

fn deluge() -> Deluge {
    Deluge {
        protocol: Protocol::Http,
        hostname: "localhost".to_string(),
        port: 8112,
        password: "deluge".to_string(),
        port_forward_path: "/tmp/gluetun/forwarded_port".to_string(),
        interval: 30,
    }
}

fn response(body: &str) -> RpcResponse {
    RpcResponse::from_json_text(body).unwrap()
}

fn reply(body: &str) -> Result<RpcResponse, Error> {
    Ok(response(body))
}

fn sent(step: &Step) -> String {
    match &step.action {
        Move::Send(request) => request.to_json_text(),
        other => panic!("nothing sent: {other:?}"),
    }
}

#[test]
fn decode_host_reads_the_entry_by_position() {
    let entry = match Json::from_text("[\"abc123\", \"10.0.0.5\", 58846, \"user\"]") {
        Some(Json::Array(entry)) => entry,
        other => panic!("{other:?}"),
    };
    let host = Deluge::decode_host(&entry).unwrap();
    assert_eq!(host.id, "abc123");
    assert_eq!(host.host, "10.0.0.5");
    assert_eq!(host.port, 58846);
    assert_eq!(host.username, "user");
}

#[test]
fn decode_host_fails_on_fewer_than_four_elements() {
    let cases = [
        ("[]", "Could not get id value for DelugeHostResponse"),
        ("[\"abc123\"]", "Could not get host value for DelugeHostResponse"),
        ("[\"abc123\", \"10.0.0.5\"]", "Could not get port value for DelugeHostResponse"),
        (
            "[\"abc123\", \"10.0.0.5\", 58846]",
            "Could not get username value for DelugeHostResponse",
        ),
    ];
    for (source, expected) in cases {
        let entry = match Json::from_text(source) {
            Some(Json::Array(entry)) => entry,
            other => panic!("{other:?}"),
        };
        match Deluge::decode_host(&entry) {
            Err(Error::AppResponse(detail)) => assert_eq!(detail, expected),
            other => panic!("{source}: {other:?}"),
        }
    }
}

#[test]
fn decode_host_fails_on_an_element_of_another_kind() {
    let cases = [
        ("[1, \"10.0.0.5\", 58846, \"user\"]", "Could not get id value for DelugeHostResponse"),
        ("[null, null, null, null]", "Could not get id value for DelugeHostResponse"),
        (
            "[\"abc123\", null, 58846, \"user\"]",
            "Could not get host value for DelugeHostResponse",
        ),
        (
            "[\"abc123\", \"10.0.0.5\", \"58846\", \"user\"]",
            "Could not get port value for DelugeHostResponse",
        ),
        (
            "[\"abc123\", \"10.0.0.5\", -1, \"user\"]",
            "Could not get port value for DelugeHostResponse",
        ),
        (
            "[\"abc123\", \"10.0.0.5\", 58846.5, \"user\"]",
            "Could not get port value for DelugeHostResponse",
        ),
        (
            "[\"abc123\", \"10.0.0.5\", 58846, false]",
            "Could not get username value for DelugeHostResponse",
        ),
    ];
    for (source, expected) in cases {
        let entry = match Json::from_text(source) {
            Some(Json::Array(entry)) => entry,
            other => panic!("{other:?}"),
        };
        match Deluge::decode_host(&entry) {
            Err(Error::AppResponse(detail)) => assert_eq!(detail, expected, "{source}"),
            other => panic!("{source}: {other:?}"),
        }
    }
}

#[test]
fn decode_host_fails_on_more_than_four_elements() {
    let entry = match Json::from_text("[\"abc123\", \"10.0.0.5\", 58846, \"user\", \"more\"]") {
        Some(Json::Array(entry)) => entry,
        other => panic!("{other:?}"),
    };
    match Deluge::decode_host(&entry) {
        Err(Error::AppResponse(detail)) => {
            assert_eq!(detail, "Could not read DelugeHostResponse from more than four values")
        }
        other => panic!("{other:?}"),
    }
}

#[test]
fn decode_item_fails_on_what_is_no_list() {
    for source in ["\"abc123\"", "7", "null", "true", "{\"id\":\"abc123\"}"] {
        match Deluge::decode_item(&Json::from_text(source).unwrap()) {
            Err(Error::AppResponse(detail)) => {
                assert_eq!(detail, "Deluge web.get_hosts returned a host that is no list")
            }
            other => panic!("{source}: {other:?}"),
        }
    }
    let host = Deluge::decode_item(
        &Json::from_text("[\"abc123\", \"10.0.0.5\", 58846, \"user\"]").unwrap(),
    )
    .unwrap();
    assert_eq!(host.id, "abc123");
}

#[test]
fn get_hosts_fails_on_an_item_that_is_no_list() {
    for body in [
        "{\"result\":[\"abc123\"],\"error\":null,\"id\":1}",
        "{\"result\":[[\"a\",\"127.0.0.1\",58846,\"localclient\"],7,[\"b\",\"10.0.0.5\",58847,\"user\"]],\"error\":null,\"id\":1}",
        "{\"result\":[\"stray\",[\"def456\",\"10.0.0.6\",58847,\"other\"]],\"error\":null,\"id\":1}",
    ] {
        match Deluge::get_hosts(&response(body)) {
            Err(Error::AppResponse(detail)) => {
                assert_eq!(detail, "Deluge web.get_hosts returned a host that is no list")
            }
            other => panic!("{body}: {other:?}"),
        }
    }
}

#[test]
fn stray_item_aborts_the_login() {
    let d = deluge();
    let step = d.login_step(
        Negotiation::EnumeratingHosts,
        reply("{\"result\":[\"stray\",[\"def456\",\"10.0.0.6\",58847,\"other\"]],\"error\":null,\"id\":3}"),
        RpcId::Number(4),
    );
    assert!(matches!(step.state, Negotiation::Unknown));
    match step.action {
        Move::Fail(Error::AppResponse(detail)) => {
            assert_eq!(detail, "Deluge web.get_hosts returned a host that is no list")
        }
        other => panic!("{other:?}"),
    }
}

#[test]
fn get_hosts_reads_every_entry() {
    let hosts = Deluge::get_hosts(&response(
        "{\"result\":[[\"a\",\"127.0.0.1\",58846,\"localclient\"],[\"b\",\"10.0.0.5\",58847,\"user\"]],\"error\":null,\"id\":1}",
    ))
    .unwrap();
    assert_eq!(hosts.len(), 2);
    assert_eq!(hosts[0].id, "a");
    assert_eq!(hosts[0].port, 58846);
    assert_eq!(hosts[1].id, "b");
    assert_eq!(hosts[1].host, "10.0.0.5");
    assert_eq!(hosts[1].username, "user");
    let none = Deluge::get_hosts(&response("{\"result\":[],\"error\":null,\"id\":1}")).unwrap();
    assert!(none.is_empty());
}

#[test]
fn get_hosts_fails_on_the_first_short_entry() {
    let r = Deluge::get_hosts(&response(
        "{\"result\":[[\"a\",\"127.0.0.1\",58846,\"u\"],[\"b\",\"10.0.0.5\"],[]],\"error\":null,\"id\":1}",
    ));
    match r {
        Err(Error::AppResponse(detail)) => {
            assert_eq!(detail, "Could not get port value for DelugeHostResponse")
        }
        other => panic!("{other:?}"),
    }
}

#[test]
fn get_hosts_fails_on_an_error_and_on_what_is_no_list() {
    match Deluge::get_hosts(&response(
        "{\"result\":[],\"error\":{\"message\":\"Not authenticated\",\"code\":1},\"id\":1}",
    )) {
        Err(Error::AppResponse(detail)) => {
            assert_eq!(detail, "Deluge web.get_hosts with message -> Not authenticated")
        }
        other => panic!("{other:?}"),
    }
    match Deluge::get_hosts(&response("{\"result\":{},\"error\":null,\"id\":1}")) {
        Err(Error::AppResponse(detail)) => assert_eq!(detail, "Deluge web.get_hosts "),
        other => panic!("{other:?}"),
    }
}

#[test]
fn is_connected_reads_a_truth_value() {
    assert!(matches!(
        Deluge::is_connected(&response("{\"result\":true,\"error\":null,\"id\":1}")),
        Ok(true)
    ));
    assert!(matches!(
        Deluge::is_connected(&response("{\"result\":false,\"error\":null,\"id\":1}")),
        Ok(false)
    ));
    match Deluge::is_connected(&response("{\"result\":null,\"error\":null,\"id\":1}")) {
        Err(Error::AppResponse(detail)) => assert_eq!(detail, "Deluge web.connected"),
        other => panic!("{other:?}"),
    }
    match Deluge::is_connected(&response(
        "{\"result\":true,\"error\":{\"message\":\"boom\",\"code\":4},\"id\":1}",
    )) {
        Err(Error::AppResponse(detail)) => {
            assert_eq!(detail, "Deluge web.connected with message -> boom")
        }
        other => panic!("{other:?}"),
    }
}

#[test]
fn authorize_tells_a_rejection_from_a_strange_answer() {
    assert!(Deluge::authorize(&response("{\"result\":true,\"error\":null,\"id\":1}")).is_ok());
    assert!(matches!(
        Deluge::authorize(&response("{\"result\":false,\"error\":null,\"id\":1}")),
        Err(Error::Authorization)
    ));
    for body in [
        "{\"result\":null,\"error\":null,\"id\":1}",
        "{\"result\":\"yes\",\"error\":null,\"id\":1}",
        "{\"result\":true,\"error\":{\"message\":\"m\",\"code\":1},\"id\":1}",
        "{\"result\":false,\"error\":{\"message\":\"m\",\"code\":1},\"id\":1}",
    ] {
        match Deluge::authorize(&response(body)) {
            Err(Error::AppResponse(detail)) => assert_eq!(detail, "Deluge auth.login"),
            other => panic!("{body}: {other:?}"),
        }
    }
}

#[test]
fn connect_and_set_port_succeed_on_any_answer_without_error() {
    for body in [
        "{\"result\":null,\"error\":null,\"id\":1}",
        "{\"result\":false,\"error\":null,\"id\":1}",
        "{\"result\":[1,2],\"id\":1}",
    ] {
        assert!(Deluge::connect(&response(body), "abc123").is_ok());
        assert!(Deluge::set_port(&response(body)).is_ok());
    }
    let failed = "{\"result\":true,\"error\":{\"message\":\"m\",\"code\":1},\"id\":1}";
    match Deluge::connect(&response(failed), "abc123") {
        Err(Error::AppResponse(detail)) => assert_eq!(
            detail,
            "Deluge web.connect was unable to connect with host ID abc123"
        ),
        other => panic!("{other:?}"),
    }
    match Deluge::set_port(&response(failed)) {
        Err(Error::AppResponse(detail)) => assert_eq!(detail, "Deluge core.set_config"),
        other => panic!("{other:?}"),
    }
}

#[test]
fn requests_are_written_in_the_legacy_revision() {
    let d = deluge();
    assert_eq!(
        Deluge::is_connected_request(RpcId::Number(1)).to_json_text(),
        "{\"method\":\"web.connected\",\"params\":[],\"id\":1}"
    );
    assert_eq!(
        d.authorize_request(RpcId::Number(2)).to_json_text(),
        "{\"method\":\"auth.login\",\"params\":[\"deluge\"],\"id\":2}"
    );
    assert_eq!(
        Deluge::get_hosts_request(RpcId::Number(3)).to_json_text(),
        "{\"method\":\"web.get_hosts\",\"params\":[],\"id\":3}"
    );
    assert_eq!(
        Deluge::connect_request("abc123", RpcId::Number(4)).to_json_text(),
        "{\"method\":\"web.connect\",\"params\":[\"abc123\"],\"id\":4}"
    );
    assert_eq!(
        Deluge::set_port_request(51413, RpcId::Number(5)).to_json_text(),
        "{\"method\":\"core.set_config\",\"params\":[{\"listen_ports\":[51413,51413]}],\"id\":5}"
    );
    assert_eq!(AUTH_METHOD, "auth.login");
    assert_eq!(GET_HOSTS_METHOD, "web.get_hosts");
    assert_eq!(CONNECT_METHOD, "web.connect");
    assert_eq!(CONNECTED_METHOD, "web.connected");
    assert_eq!(SET_CONFIG_METHOD, "core.set_config");
}

#[test]
fn login_runs_through_all_four_steps() {
    let d = deluge();
    let step = d.login_begin(RpcId::Number(1));
    assert!(matches!(step.state, Negotiation::CheckingConnection));
    assert_eq!(sent(&step), "{\"method\":\"web.connected\",\"params\":[],\"id\":1}");

    let step = d.login_step(
        step.state,
        reply("{\"result\":false,\"error\":null,\"id\":1}"),
        RpcId::Number(2),
    );
    assert!(matches!(step.state, Negotiation::Authorizing));
    assert_eq!(sent(&step), "{\"method\":\"auth.login\",\"params\":[\"deluge\"],\"id\":2}");

    let step = d.login_step(
        step.state,
        reply("{\"result\":true,\"error\":null,\"id\":2}"),
        RpcId::Number(3),
    );
    assert!(matches!(step.state, Negotiation::EnumeratingHosts));
    assert_eq!(sent(&step), "{\"method\":\"web.get_hosts\",\"params\":[],\"id\":3}");

    let step = d.login_step(
        step.state,
        reply("{\"result\":[[\"abc123\",\"10.0.0.5\",58846,\"user\"],[\"def456\",\"10.0.0.6\",58846,\"user\"]],\"error\":null,\"id\":3}"),
        RpcId::Number(4),
    );
    assert!(matches!(&step.state, Negotiation::Connecting { host_id } if host_id == "abc123"));
    assert_eq!(sent(&step), "{\"method\":\"web.connect\",\"params\":[\"abc123\"],\"id\":4}");

    let step = d.login_step(
        step.state,
        reply("{\"result\":null,\"error\":null,\"id\":4}"),
        RpcId::Number(5),
    );
    assert!(matches!(step.state, Negotiation::Connected));
    assert!(matches!(step.action, Move::Succeed));
}

#[test]
fn connected_answer_short_circuits_the_login() {
    let d = deluge();
    let step = d.login_begin(RpcId::Number(1));
    let step = d.login_step(
        step.state,
        reply("{\"result\":true,\"error\":null,\"id\":1}"),
        RpcId::Number(2),
    );
    assert!(matches!(step.state, Negotiation::Connected));
    assert!(matches!(step.action, Move::Succeed));
}

#[test]
fn failed_connection_check_does_not_fall_through_to_the_login() {
    let d = deluge();
    let step = d.login_step(
        Negotiation::CheckingConnection,
        reply("{\"result\":null,\"error\":{\"message\":\"down\",\"code\":9},\"id\":1}"),
        RpcId::Number(2),
    );
    assert!(matches!(step.state, Negotiation::Unknown));
    match step.action {
        Move::Fail(Error::AppResponse(detail)) => {
            assert_eq!(detail, "Deluge web.connected with message -> down")
        }
        other => panic!("{other:?}"),
    }
    let step = d.login_step(
        Negotiation::CheckingConnection,
        Err(Error::Reqwest("connection refused".to_string())),
        RpcId::Number(2),
    );
    assert!(matches!(step.state, Negotiation::Unknown));
    assert!(matches!(step.action, Move::Fail(Error::Reqwest(detail)) if detail == "connection refused"));
}

#[test]
fn wrong_password_is_a_success_of_the_envelope_and_a_failure_of_the_login() {
    let d = Deluge { password: "wrong".to_string(), ..deluge() };
    assert_eq!(
        d.authorize_request(RpcId::Number(7)).to_json_text(),
        "{\"method\":\"auth.login\",\"params\":[\"wrong\"],\"id\":7}"
    );
    let answer = "{\"result\": false, \"error\": null, \"id\": 7}";
    assert!(matches!(response(answer).classify(), RpcOutcome::Success(Json::Bool(false))));
    let step = d.login_step(Negotiation::Authorizing, reply(answer), RpcId::Number(8));
    assert!(matches!(step.state, Negotiation::Unknown));
    match step.action {
        Move::Fail(e) => {
            assert!(matches!(e, Error::Authorization));
            assert_eq!(e.kind(), ErrorKind::AuthorizationRejected);
        }
        other => panic!("{other:?}"),
    }
}

#[test]
fn short_host_entry_aborts_the_login() {
    let d = deluge();
    let step = d.login_step(
        Negotiation::EnumeratingHosts,
        reply("{\"result\":[[\"abc123\",\"10.0.0.5\",58846]],\"error\":null,\"id\":3}"),
        RpcId::Number(4),
    );
    assert!(matches!(step.state, Negotiation::Unknown));
    match step.action {
        Move::Fail(Error::AppResponse(detail)) => {
            assert_eq!(detail, "Could not get username value for DelugeHostResponse")
        }
        other => panic!("{other:?}"),
    }
}

#[test]
fn empty_host_list_fails_the_login_in_its_own_way() {
    let d = deluge();
    let step = d.login_step(
        Negotiation::EnumeratingHosts,
        reply("{\"result\":[],\"error\":null,\"id\":3}"),
        RpcId::Number(4),
    );
    assert!(matches!(step.state, Negotiation::Unknown));
    match step.action {
        Move::Fail(e) => {
            assert_eq!(e.kind(), ErrorKind::ApplicationResponseFailure);
            assert_eq!(
                e.to_string(),
                "Unsuccessful response: Deluge web.get_hosts returned no host available to connect"
            );
        }
        other => panic!("{other:?}"),
    }
}

#[test]
fn failed_connect_fails_the_login() {
    let d = deluge();
    let step = d.login_step(
        Negotiation::Connecting { host_id: "abc123".to_string() },
        reply("{\"result\":null,\"error\":{\"message\":\"m\",\"code\":1},\"id\":4}"),
        RpcId::Number(5),
    );
    assert!(matches!(step.state, Negotiation::Unknown));
    match step.action {
        Move::Fail(Error::AppResponse(detail)) => assert_eq!(
            detail,
            "Deluge web.connect was unable to connect with host ID abc123"
        ),
        other => panic!("{other:?}"),
    }
}

#[test]
fn unknown_starts_over_and_connected_stays() {
    let d = deluge();
    let step = d.login_step(
        Negotiation::Unknown,
        Err(Error::Reqwest("stale".to_string())),
        RpcId::Number(9),
    );
    assert!(matches!(step.state, Negotiation::CheckingConnection));
    assert_eq!(sent(&step), "{\"method\":\"web.connected\",\"params\":[],\"id\":9}");
    let step = d.login_step(
        Negotiation::Connected,
        Err(Error::Reqwest("stale".to_string())),
        RpcId::Number(9),
    );
    assert!(matches!(step.state, Negotiation::Connected));
    assert!(matches!(step.action, Move::Succeed));
}

#[test]
fn rpc_request_is_posted_as_json_to_the_endpoint() {
    let d = deluge();
    assert_eq!(d.endpoint(), "Http://localhost:8112/json");
    assert_eq!(d.interval(), 30);
    assert_eq!(d.port_forward_path(), "/tmp/gluetun/forwarded_port");
    match d.send_rpc_request(&Deluge::set_port_request(51413, RpcId::Number(5))) {
        HttpRequest::PostJson { url, body } => {
            assert_eq!(url, "Http://localhost:8112/json");
            assert_eq!(
                body,
                "{\"method\":\"core.set_config\",\"params\":[{\"listen_ports\":[51413,51413]}],\"id\":5}"
            );
        }
        other => panic!("{other:?}"),
    }
}

#[test]
fn rpc_response_is_read_from_the_body_whatever_the_status() {
    let read = Deluge::read_rpc_response(Ok(HttpResponse {
        status: 500,
        body: "{\"result\":true,\"error\":null,\"id\":1}".to_string(),
    }))
    .unwrap();
    assert_eq!(read.result().as_bool(), Some(true));
    assert!(matches!(
        Deluge::read_rpc_response(Ok(HttpResponse { status: 200, body: "<html>".to_string() })),
        Err(Error::ParsingFailure(_))
    ));
    assert!(matches!(
        Deluge::read_rpc_response(Err(Error::Reqwest("timed out".to_string()))),
        Err(Error::Reqwest(detail)) if detail == "timed out"
    ));
}

#[test]
fn fresh_id_is_a_number() {
    let first = generate_id();
    let second = generate_id();
    match (first, second) {
        (RpcId::Number(a), RpcId::Number(b)) => {
            assert!(a > 1_600_000_000_000_000_000);
            assert!(b >= a);
        }
        other => panic!("{other:?}"),
    }
}

#[test]
fn id_is_the_nanoseconds_that_the_clock_reads() {
    assert!(matches!(id_of_clock(Some(1754000000123456789)), RpcId::Number(1754000000123456789)));
    assert!(matches!(id_of_clock(Some(0)), RpcId::Number(0)));
    assert!(matches!(id_of_clock(Some(u128::MAX)), RpcId::Number(u128::MAX)));
    assert!(matches!(id_of_clock(None), RpcId::Number(0)));
}
