use port_sync::apps::deluge::{Deluge, Negotiation};
use port_sync::apps::exchange::{Advance, Exchange};
use port_sync::apps::qbittorrent::{PortUpdate, Qbittorrent};
use port_sync::apps::{Backend, HttpRequest, HttpResponse, Protocol};
use port_sync::error::Error;
use port_sync::rpc::RpcId;

fn deluge() -> Backend {
    Backend::Deluge(Deluge {
        protocol: Protocol::Http,
        hostname: "localhost".to_string(),
        port: 8112,
        password: "deluge".to_string(),
        port_forward_path: "/tmp/gluetun/forwarded_port".to_string(),
        interval: 30,
    })
}

fn qbittorrent() -> Backend {
    Backend::QBittorrent(Qbittorrent {
        protocol: Protocol::Http,
        hostname: "localhost".to_string(),
        port: 8080,
        username: "admin".to_string(),
        password: "adminadmin".to_string(),
        port_forward_path: "/tmp/gluetun/forwarded_port".to_string(),
        interval: 30,
    })
}

fn answer(status: u16, body: &str) -> Result<HttpResponse, Error> {
    Ok(HttpResponse { status, body: body.to_string() })
}

fn posted(advance: Advance) -> (Exchange, String, String) {
    match advance {
        Advance::Send(exchange, HttpRequest::PostJson { url, body }) => (exchange, url, body),
        other => panic!("{other:?}"),
    }
}

#[test]
fn deluge_login_goes_through_the_backend_interface() {
    let backend = deluge();
    let (exchange, url, body) = posted(backend.login(RpcId::Number(1)));
    assert_eq!(url, "Http://localhost:8112/json");
    assert_eq!(body, "{\"method\":\"web.connected\",\"params\":[],\"id\":1}");
    assert!(matches!(exchange, Exchange::DelugeLogin(Negotiation::CheckingConnection)));

    let (exchange, _, body) = posted(backend.resume(
        exchange,
        answer(200, "{\"result\":false,\"error\":null,\"id\":1}"),
        RpcId::Number(2),
    ));
    assert_eq!(body, "{\"method\":\"auth.login\",\"params\":[\"deluge\"],\"id\":2}");

    let (exchange, _, body) = posted(backend.resume(
        exchange,
        answer(200, "{\"result\":true,\"error\":null,\"id\":2}"),
        RpcId::Number(3),
    ));
    assert_eq!(body, "{\"method\":\"web.get_hosts\",\"params\":[],\"id\":3}");

    let (exchange, _, body) = posted(backend.resume(
        exchange,
        answer(200, "{\"result\":[[\"abc123\",\"10.0.0.5\",58846,\"user\"]],\"error\":null,\"id\":3}"),
        RpcId::Number(4),
    ));
    assert_eq!(body, "{\"method\":\"web.connect\",\"params\":[\"abc123\"],\"id\":4}");

    let done = backend.resume(
        exchange,
        answer(200, "{\"result\":null,\"error\":null,\"id\":4}"),
        RpcId::Number(5),
    );
    assert!(matches!(done, Advance::Done(Ok(()))));
}

#[test]
fn deluge_login_is_over_at_once_where_the_daemon_is_connected() {
    let backend = deluge();
    let (exchange, _, _) = posted(backend.login(RpcId::Number(1)));
    let done = backend.resume(
        exchange,
        answer(200, "{\"result\":true,\"error\":null,\"id\":1}"),
        RpcId::Number(2),
    );
    assert!(matches!(done, Advance::Done(Ok(()))));
}

#[test]
fn deluge_login_fails_where_the_password_is_rejected() {
    let backend = deluge();
    let done = backend.resume(
        Exchange::DelugeLogin(Negotiation::Authorizing),
        answer(200, "{\"result\": false, \"error\": null, \"id\": 7}"),
        RpcId::Number(8),
    );
    assert!(matches!(done, Advance::Done(Err(Error::Authorization))));
}

#[test]
fn deluge_login_fails_where_the_body_is_no_response() {
    let backend = deluge();
    let done = backend.resume(
        Exchange::DelugeLogin(Negotiation::CheckingConnection),
        answer(502, "<html>Bad Gateway</html>"),
        RpcId::Number(8),
    );
    assert!(matches!(done, Advance::Done(Err(Error::ParsingFailure(_)))));
    let done = backend.resume(
        Exchange::DelugeLogin(Negotiation::EnumeratingHosts),
        Err(Error::Reqwest("timed out".to_string())),
        RpcId::Number(8),
    );
    assert!(matches!(done, Advance::Done(Err(Error::Reqwest(_)))));
}

#[test]
fn deluge_port_update_is_one_exchange_without_read_back() {
    let backend = deluge();
    let (exchange, url, body) = posted(backend.set_port(51413, RpcId::Number(6)));
    assert_eq!(url, "Http://localhost:8112/json");
    assert_eq!(
        body,
        "{\"method\":\"core.set_config\",\"params\":[{\"listen_ports\":[51413,51413]}],\"id\":6}"
    );
    assert!(matches!(exchange, Exchange::DelugePort));
    let done = backend.resume(
        exchange,
        answer(200, "{\"result\":null,\"error\":null,\"id\":6}"),
        RpcId::Number(7),
    );
    assert!(matches!(done, Advance::Done(Ok(()))));
    let done = backend.resume(
        Exchange::DelugePort,
        answer(200, "{\"result\":null,\"error\":{\"message\":\"Not authenticated\",\"code\":1},\"id\":6}"),
        RpcId::Number(7),
    );
    assert!(matches!(done, Advance::Done(Err(Error::AppResponse(d))) if d == "Deluge core.set_config"));
}

#[test]
fn qbittorrent_login_is_one_exchange() {
    let backend = qbittorrent();
    let exchange = match backend.login(RpcId::Number(1)) {
        Advance::Send(exchange, HttpRequest::PostForm { url, fields }) => {
            assert_eq!(url, "Http://localhost:8080/api/v2/auth/login");
            assert_eq!(
                fields,
                vec![
                    ("username".to_string(), "admin".to_string()),
                    ("password".to_string(), "adminadmin".to_string())
                ]
            );
            exchange
        }
        other => panic!("{other:?}"),
    };
    assert!(matches!(exchange, Exchange::QbittorrentLogin));
    assert!(matches!(
        backend.resume(exchange, answer(200, "Ok."), RpcId::Number(2)),
        Advance::Done(Ok(()))
    ));
    assert!(matches!(
        backend.resume(Exchange::QbittorrentLogin, answer(403, ""), RpcId::Number(2)),
        Advance::Done(Err(Error::Authorization))
    ));
}

#[test]
fn qbittorrent_port_update_reads_the_port_back() {
    let backend = qbittorrent();
    let exchange = match backend.set_port(51413, RpcId::Number(1)) {
        Advance::Send(exchange, HttpRequest::PostForm { url, fields }) => {
            assert_eq!(url, "Http://localhost:8080/api/v2/app/setPreferences");
            assert_eq!(fields, vec![("json".to_string(), "{\"listen_port\":51413 }".to_string())]);
            exchange
        }
        other => panic!("{other:?}"),
    };
    assert!(matches!(exchange, Exchange::QbittorrentPort(PortUpdate::Applying(51413))));
    let exchange = match backend.resume(exchange, answer(200, ""), RpcId::Number(2)) {
        Advance::Send(exchange, HttpRequest::Get { url }) => {
            assert_eq!(url, "Http://localhost:8080/api/v2/app/preferences");
            exchange
        }
        other => panic!("{other:?}"),
    };
    assert!(matches!(exchange, Exchange::QbittorrentPort(PortUpdate::Verifying(51413))));
    assert!(matches!(
        backend.resume(exchange, answer(200, "{\"listen_port\":51413}"), RpcId::Number(3)),
        Advance::Done(Ok(()))
    ));
    assert!(matches!(
        backend.resume(
            Exchange::QbittorrentPort(PortUpdate::Verifying(51413)),
            answer(200, "{\"listen_port\":6881}"),
            RpcId::Number(3)
        ),
        Advance::Done(Err(Error::PortUpdate(_)))
    ));
}

#[test]
fn exchange_of_the_other_backend_is_refused() {
    for (backend, exchange) in [
        (deluge(), Exchange::QbittorrentLogin),
        (deluge(), Exchange::QbittorrentPort(PortUpdate::Applying(1))),
        (qbittorrent(), Exchange::DelugePort),
        (qbittorrent(), Exchange::DelugeLogin(Negotiation::Authorizing)),
    ] {
        match backend.resume(exchange, answer(200, "{\"result\":true}"), RpcId::Number(1)) {
            Advance::Done(Err(Error::AppResponse(detail))) => {
                assert_eq!(detail, "the exchange under way belongs to another backend")
            }
            other => panic!("{other:?}"),
        }
    }
}
