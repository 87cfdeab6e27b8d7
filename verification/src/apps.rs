//! What the two backends share: the application and protocol selectors, the
//! address of an endpoint, the HTTP exchange that a backend asks for, and the
//! reading of the forwarded port.

pub mod deluge;
pub mod exchange;
pub mod qbittorrent;

use vstd::prelude::*;
use crate::apps::deluge::Deluge;
use crate::apps::qbittorrent::Qbittorrent;
use crate::error::{Error, ErrorView};
use crate::text::{
    append_decimal, chars_of, decimal_digits, decimal_text, eq_ignore_ascii_case, is_digit,
    lemma_decimal_round_trip, lemma_trim_end_drops_run, lemma_trim_start_keeps, parse_digits,
    parse_unsigned, plus_unsigned_of, same_ignoring_ascii_case, trim_matches, trimmed,
    unsigned_of,
};

verus! {

/// The character that ends a line in the forwarded-port file.
pub const LINE_FEED: char = '\n';

/// The torrent client to talk to.
#[derive(Debug, Clone, Copy, PartialEq, Eq, Structural)]
pub enum Application {
    QBittorrent,
    Deluge,
}

/// How the client's web interface is reached.
#[derive(Debug, Clone, Copy, PartialEq, Eq, Structural)]
pub enum Protocol {
    Http,
    Https,
}

impl Default for Application {
    fn default() -> (r: Application)
        ensures
            r == Application::QBittorrent,
    {
        Application::QBittorrent
    }
}

impl Default for Protocol {
    fn default() -> (r: Protocol)
        ensures
            r == Protocol::Http,
    {
        Protocol::Http
    }
}

impl Application {
    /// The application's name.
    pub open spec fn name(self) -> Seq<char> {
        match self {
            Application::QBittorrent => "QBittorrent"@,
            Application::Deluge => "Deluge"@,
        }
    }

    /// The application that a text names, capitals and small letters taken
    /// as the same.
    pub open spec fn named(text: Seq<char>) -> Option<Application> {
        if same_ignoring_ascii_case(text, "QBittorrent"@) {
            Some(Application::QBittorrent)
        } else if same_ignoring_ascii_case(text, "Deluge"@) {
            Some(Application::Deluge)
        } else {
            None
        }
    }

    /// The port on which the application's web interface listens unless it
    /// is told otherwise.
    pub open spec fn spec_default_port(&self) -> u16 {
        match self {
            Application::QBittorrent => 8080,
            Application::Deluge => 8112,
        }
    }

    /// The port on which the application's web interface listens unless it
    /// is told otherwise.
    #[verifier::when_used_as_spec(spec_default_port)]
    pub fn default_port(&self) -> (port: u16)
        ensures
            port == self.spec_default_port(),
    {
        match self {
            Application::QBittorrent => 8080,
            Application::Deluge => 8112,
        }
    }

    /// The application's name.
    pub fn to_string(&self) -> (r: String)
        ensures
            r@ == self.name(),
    {
        match self {
            Application::QBittorrent => String::from_str("QBittorrent"),
            Application::Deluge => String::from_str("Deluge"),
        }
    }

    /// The application that a text names, capitals and small letters taken
    /// as the same; nothing where it names none.
    pub fn parse(text: &str) -> (r: Option<Application>)
        ensures
            r == Application::named(text@),
    {
        if eq_ignore_ascii_case(text, "QBittorrent") {
            Some(Application::QBittorrent)
        } else if eq_ignore_ascii_case(text, "Deluge") {
            Some(Application::Deluge)
        } else {
            None
        }
    }
}

impl Protocol {
    /// The protocol's name, which is also the scheme of an endpoint's address.
    pub open spec fn name(self) -> Seq<char> {
        match self {
            Protocol::Http => "Http"@,
            Protocol::Https => "Https"@,
        }
    }

    /// The protocol that a text names, capitals and small letters taken as
    /// the same.
    pub open spec fn named(text: Seq<char>) -> Option<Protocol> {
        if same_ignoring_ascii_case(text, "Http"@) {
            Some(Protocol::Http)
        } else if same_ignoring_ascii_case(text, "Https"@) {
            Some(Protocol::Https)
        } else {
            None
        }
    }

    /// The protocol's name.
    pub fn to_string(&self) -> (r: String)
        ensures
            r@ == self.name(),
    {
        match self {
            Protocol::Http => String::from_str("Http"),
            Protocol::Https => String::from_str("Https"),
        }
    }

    /// The protocol that a text names, capitals and small letters taken as
    /// the same; nothing where it names none.
    pub fn parse(text: &str) -> (r: Option<Protocol>)
        ensures
            r == Protocol::named(text@),
    {
        if eq_ignore_ascii_case(text, "Http") {
            Some(Protocol::Http)
        } else if eq_ignore_ascii_case(text, "Https") {
            Some(Protocol::Https)
        } else {
            None
        }
    }
}

/// The address of an endpoint: scheme, host, port and path.
pub open spec fn endpoint_text(
    protocol: Protocol,
    hostname: Seq<char>,
    port: u16,
    path: Seq<char>,
) -> Seq<char> {
    protocol.name() + "://"@ + hostname + ":"@ + decimal_digits(port as nat) + path
}

/// The address of an endpoint: scheme, host, port and path.
pub fn endpoint(protocol: Protocol, hostname: &str, port: u16, path: &str) -> (url: String)
    ensures
        url@ == endpoint_text(protocol, hostname@, port, path@),
{
    let mut url = protocol.to_string();
    url.append("://");
    url.append(hostname);
    url.append(":");
    append_decimal(&mut url, port as u128);
    url.append(path);
    url
}

/// Whether an operation went through.
pub fn result_to_bool(result: Result<(), Error>) -> (ok: bool)
    ensures
        ok == result.is_ok(),
{
    match result {
        Ok(_) => true,
        Err(_) => false,
    }
}

/// Whether an HTTP status code reports success: the codes from 200 to 299.
pub open spec fn is_success_status(status: u16) -> bool {
    200 <= status < 300
}

/// Whether an HTTP status code reports success: the codes from 200 to 299.
pub fn status_is_success(status: u16) -> (r: bool)
    ensures
        r == is_success_status(status),
{
    200 <= status && status < 300
}

// ---------------------------------------------------------------------------
// The forwarded port
// ---------------------------------------------------------------------------

/// What is reported for a file content that writes no port.
pub open spec fn port_fault(content: Seq<char>) -> Seq<char> {
    "the forwarded port value is not a port number from 1 to 65535: "@ + content
}

/// The port that the content of the forwarded-port file writes. Line feeds
/// at both ends are left out; what is left has to be the decimal notation
/// of a number from 1 to 65535, with no sign, no leading zero and nothing
/// else beside it. The number 0 is no port.
pub open spec fn forwarded_port_of(content: Seq<char>) -> Result<u16, ErrorView> {
    let value = trimmed(content, LINE_FEED);
    match unsigned_of(value, 0xffff) {
        Some(n) => if n >= 1 && value == decimal_digits(n) {
            Ok(n as u16)
        } else {
            Err(ErrorView::ParseInt(port_fault(value)))
        },
        None => Err(ErrorView::ParseInt(port_fault(value))),
    }
}

/// The view of a port or the failure to get one.
pub open spec fn port_view(r: Result<u16, Error>) -> Result<u16, ErrorView> {
    match r {
        Ok(port) => Ok(port),
        Err(e) => Err(e@),
    }
}

/// Reads the forwarded port from the content of the file that publishes it.
/// A port that is read is a number from 1 to 65535, and the content is its
/// decimal notation between line feeds.
pub fn parse_forwarded_port(content: &str) -> (r: Result<u16, Error>)
    ensures
        port_view(r) == forwarded_port_of(content@),
        r matches Ok(port) ==> port >= 1 && trimmed(content@, LINE_FEED) == decimal_digits(
            port as nat,
        ),
{
    let value = trim_matches(content, LINE_FEED);
    let chars = chars_of(value.as_str());
    assert(chars@.skip(0) =~= chars@);
    match parse_digits(&chars, 0, 0xffff) {
        Some(n) if n >= 1 => {
            let written = decimal_text(n);
            if written == value {
                return Ok(n as u16);
            }
        },
        _ => {},
    }
    let mut detail = String::from_str(
        "the forwarded port value is not a port number from 1 to 65535: ",
    );
    detail.append(value.as_str());
    Err(Error::ParseInt(detail))
}

/// A run of `n` line feeds.
pub open spec fn line_feeds(n: nat) -> Seq<char> {
    Seq::new(n, |i: int| LINE_FEED)
}

/// Every port reads back from the file content that writes it: its decimal
/// notation, followed by any number of line feeds.
pub proof fn lemma_written_port_is_read(port: u16, feeds: nat)
    requires
        port >= 1,
    ensures
        forwarded_port_of(decimal_digits(port as nat) + line_feeds(feeds)) == Ok::<
            u16,
            ErrorView,
        >(port),
{
    let digits = decimal_digits(port as nat);
    lemma_decimal_round_trip(port as nat);
    assert(is_digit(digits[0]));
    assert(is_digit(digits.last()));
    let content = digits + line_feeds(feeds);
    assert(content[0] == digits[0]);
    lemma_trim_start_keeps(content, LINE_FEED);
    lemma_trim_end_drops_run(digits, LINE_FEED, feeds);
}

/// What is reported where the forwarded-port file does not exist.
pub open spec fn missing_path(path: Seq<char>) -> ErrorView {
    ErrorView::PortPath("Path "@ + path + " does not exist"@)
}

/// The forwarded port, given the path of the file and what was found there:
/// nothing where the file does not exist, else its content.
pub open spec fn port_found(path: Seq<char>, found: Option<&str>) -> Result<u16, ErrorView> {
    match found {
        Some(content) => forwarded_port_of(content@),
        None => Err(missing_path(path)),
    }
}

/// Reads the forwarded port, given the path of the file that publishes it
/// and what was found there: `None` where the file does not exist, else its
/// content.
pub fn check_port_forward(path: &str, found: Option<&str>) -> (r: Result<u16, Error>)
    ensures
        port_view(r) == port_found(path@, found),
        r matches Ok(port) ==> port >= 1,
{
    match found {
        Some(content) => parse_forwarded_port(content),
        None => {
            let mut detail = String::from_str("Path ");
            detail.append(path);
            detail.append(" does not exist");
            Err(Error::PortPath(detail))
        },
    }
}

// ---------------------------------------------------------------------------
// The HTTP exchange that a backend asks for
// ---------------------------------------------------------------------------

/// A request that a backend wants sent.
#[derive(Debug)]
pub enum HttpRequest {
    /// `GET url`.
    Get { url: String },
    /// `POST url` with the fields as a URL-encoded form.
    PostForm { url: String, fields: Vec<(String, String)> },
    /// `POST url` with the body as JSON.
    PostJson { url: String, body: String },
}

/// What came back: the status code and the body as text.
#[derive(Debug)]
pub struct HttpResponse {
    pub status: u16,
    pub body: String,
}

/// The names and values of form fields.
pub open spec fn fields_view(fields: Seq<(String, String)>) -> Seq<(Seq<char>, Seq<char>)> {
    Seq::new(fields.len(), |i: int| (fields[i].0@, fields[i].1@))
}

/// The mathematical value of an [`HttpRequest`].
pub enum HttpRequestView {
    Get { url: Seq<char> },
    PostForm { url: Seq<char>, fields: Seq<(Seq<char>, Seq<char>)> },
    PostJson { url: Seq<char>, body: Seq<char> },
}

impl View for HttpRequest {
    type V = HttpRequestView;

    open spec fn view(&self) -> HttpRequestView {
        match self {
            HttpRequest::Get { url } => HttpRequestView::Get { url: url@ },
            HttpRequest::PostForm { url, fields } => HttpRequestView::PostForm {
                url: url@,
                fields: fields_view(fields@),
            },
            HttpRequest::PostJson { url, body } => HttpRequestView::PostJson {
                url: url@,
                body: body@,
            },
        }
    }
}

/// The mathematical value of an [`HttpResponse`].
pub struct HttpResponseView {
    pub status: u16,
    pub body: Seq<char>,
}

impl View for HttpResponse {
    type V = HttpResponseView;

    open spec fn view(&self) -> HttpResponseView {
        HttpResponseView { status: self.status, body: self.body@ }
    }
}

/// The view of what an exchange came to: a response, or the failure of the
/// transport.
pub open spec fn exchange_view(reply: Result<HttpResponse, Error>) -> Result<
    HttpResponseView,
    ErrorView,
> {
    match reply {
        Ok(response) => Ok(response@),
        Err(e) => Err(e@),
    }
}

// ---------------------------------------------------------------------------
// The choice of the backend
// ---------------------------------------------------------------------------

/// The host of the web interface unless the settings say otherwise.
pub const HOST_DEFAULT: &'static str = "localhost";

/// The user name unless the settings say otherwise.
pub const USER_DEFAULT: &'static str = "admin";

/// The password unless the settings say otherwise.
pub const PASSWORD_DEFAULT: &'static str = "";

/// The path of the forwarded-port file unless the settings say otherwise.
pub const PORT_FORWARD_PATH_DEFAULT: &'static str = "/tmp/gluetun/forwarded_port";

/// The seconds between two polls unless the settings say otherwise.
pub const CHECK_INTERVAL_DEFAULT: u64 = 30;

/// The settings as they were found, each one absent or a text: the
/// application, the protocol, the host and port of the web interface, the
/// credentials, the path of the forwarded-port file and the poll interval
/// in seconds.
#[derive(Debug)]
pub struct Settings {
    pub application: Option<String>,
    pub protocol: Option<String>,
    pub host: Option<String>,
    pub port: Option<String>,
    pub user: Option<String>,
    pub password: Option<String>,
    pub port_forward_path: Option<String>,
    pub check_interval: Option<String>,
}

/// The text of a setting, or `default` where it is absent.
pub open spec fn text_or(value: Option<String>, default: Seq<char>) -> Seq<char> {
    match value {
        Some(text) => text@,
        None => default,
    }
}

/// The number that a setting writes, or `default` where it is absent or
/// writes no unsigned number up to `limit`.
pub open spec fn number_or(value: Option<String>, limit: nat, default: nat) -> nat {
    match value {
        Some(text) => match plus_unsigned_of(text@, limit) {
            Some(n) => n,
            None => default,
        },
        None => default,
    }
}

/// The protocol that a setting names, or HTTP where it is absent or names
/// none.
pub open spec fn protocol_or_default(value: Option<String>) -> Protocol {
    match Protocol::named(text_or(value, Seq::empty())) {
        Some(protocol) => protocol,
        None => Protocol::Http,
    }
}

/// The text of a setting, or `default` where it is absent.
pub fn setting_or(value: &Option<String>, default: &str) -> (text: String)
    ensures
        text@ == text_or(*value, default@),
{
    match value {
        Some(text) => text.clone(),
        None => String::from_str(default),
    }
}

/// The number that a setting writes, or `default` where it is absent or
/// writes no unsigned number up to `limit`.
pub fn setting_number_or(value: &Option<String>, limit: u64, default: u64) -> (n: u64)
    ensures
        n == number_or(*value, limit as nat, default as nat),
{
    match value {
        Some(text) => match parse_unsigned(text.as_str(), limit as u128) {
            Some(n) => n as u64,
            None => default,
        },
        None => default,
    }
}

/// The protocol that a setting names, or HTTP where it is absent or names
/// none.
pub fn setting_protocol(value: &Option<String>) -> (protocol: Protocol)
    ensures
        protocol == protocol_or_default(*value),
{
    let text = setting_or(value, "");
    proof {
        reveal_strlit("");
        assert(""@ =~= Seq::<char>::empty());
    }
    match Protocol::parse(text.as_str()) {
        Some(protocol) => protocol,
        None => Protocol::default(),
    }
}

/// The backend that the control loop talks to, chosen once from the
/// settings.
#[derive(Debug)]
pub enum Backend {
    QBittorrent(Qbittorrent),
    Deluge(Deluge),
}

/// What is reported where the settings name no application.
pub open spec fn no_application() -> ErrorView {
    ErrorView::ParsingFailure("APPLICATION value is not valid application type"@)
}

impl Settings {
    /// The application that the settings name, if they name one.
    pub open spec fn chosen(&self) -> Option<Application> {
        Application::named(text_or(self.application, Seq::empty()))
    }

    /// The port of the web interface: the one set, or the application's own
    /// where none is set or the setting writes no port.
    pub open spec fn port_for(&self, application: Application) -> u16 {
        number_or(self.port, 0xffff, application.spec_default_port() as nat) as u16
    }

    /// Whether `backend` is what these settings resolve to for
    /// `application`: every value as it was set, and its default where it
    /// was not.
    pub open spec fn resolve_to(&self, application: Application, backend: Backend) -> bool {
        match backend {
            Backend::QBittorrent(q) => {
                &&& application == Application::QBittorrent
                &&& q.protocol == protocol_or_default(self.protocol)
                &&& q.hostname@ == text_or(self.host, HOST_DEFAULT@)
                &&& q.port == self.port_for(application)
                &&& q.username@ == text_or(self.user, USER_DEFAULT@)
                &&& q.password@ == text_or(self.password, PASSWORD_DEFAULT@)
                &&& q.port_forward_path@ == text_or(
                    self.port_forward_path,
                    PORT_FORWARD_PATH_DEFAULT@,
                )
                &&& q.interval == number_or(
                    self.check_interval,
                    u64::MAX as nat,
                    CHECK_INTERVAL_DEFAULT as nat,
                )
            },
            Backend::Deluge(d) => {
                &&& application == Application::Deluge
                &&& d.protocol == protocol_or_default(self.protocol)
                &&& d.hostname@ == text_or(self.host, HOST_DEFAULT@)
                &&& d.port == self.port_for(application)
                &&& d.password@ == text_or(self.password, PASSWORD_DEFAULT@)
                &&& d.port_forward_path@ == text_or(
                    self.port_forward_path,
                    PORT_FORWARD_PATH_DEFAULT@,
                )
                &&& d.interval == number_or(
                    self.check_interval,
                    u64::MAX as nat,
                    CHECK_INTERVAL_DEFAULT as nat,
                )
            },
        }
    }
}

/// Chooses the backend from the settings. Fails exactly where the settings
/// name no application; every other setting has a default.
pub fn app_init(settings: &Settings) -> (r: Result<Backend, Error>)
    ensures
        match settings.chosen() {
            Some(application) => r is Ok && settings.resolve_to(application, r->Ok_0),
            None => r is Err && r->Err_0@ == no_application(),
        },
{
    let name = setting_or(&settings.application, "");
    proof {
        reveal_strlit("");
        assert(""@ =~= Seq::<char>::empty());
    }
    let application = match Application::parse(name.as_str()) {
        Some(application) => application,
        None => {
            return Err(
                Error::ParsingFailure(
                    String::from_str("APPLICATION value is not valid application type"),
                ),
            );
        },
    };
    let protocol = setting_protocol(&settings.protocol);
    let port = setting_number_or(&settings.port, 0xffff, application.default_port() as u64) as u16;
    let interval = setting_number_or(
        &settings.check_interval,
        0xffff_ffff_ffff_ffff,
        CHECK_INTERVAL_DEFAULT,
    );
    let hostname = setting_or(&settings.host, HOST_DEFAULT);
    let username = setting_or(&settings.user, USER_DEFAULT);
    let password = setting_or(&settings.password, PASSWORD_DEFAULT);
    let port_forward_path = setting_or(&settings.port_forward_path, PORT_FORWARD_PATH_DEFAULT);
    Ok(
        match application {
            Application::QBittorrent => Backend::QBittorrent(
                Qbittorrent {
                    protocol,
                    port,
                    hostname,
                    username,
                    password,
                    port_forward_path,
                    interval,
                },
            ),
            Application::Deluge => Backend::Deluge(
                Deluge { protocol, port, hostname, password, port_forward_path, interval },
            ),
        },
    )
}

impl Backend {
    /// The application behind the backend.
    pub fn application(&self) -> (r: Application)
        ensures
            r == match self {
                Backend::QBittorrent(_) => Application::QBittorrent,
                Backend::Deluge(_) => Application::Deluge,
            },
    {
        match self {
            Backend::QBittorrent(_) => Application::QBittorrent,
            Backend::Deluge(_) => Application::Deluge,
        }
    }

    /// The seconds to wait between two polls.
    pub fn interval(&self) -> (seconds: u64)
        ensures
            seconds == match self {
                Backend::QBittorrent(q) => q.interval,
                Backend::Deluge(d) => d.interval,
            },
    {
        match self {
            Backend::QBittorrent(q) => q.interval(),
            Backend::Deluge(d) => d.interval(),
        }
    }

    /// The path of the file that publishes the forwarded port.
    pub fn port_forward_path(&self) -> (path: &str)
        ensures
            path@ == match self {
                Backend::QBittorrent(q) => q.port_forward_path@,
                Backend::Deluge(d) => d.port_forward_path@,
            },
    {
        match self {
            Backend::QBittorrent(q) => q.port_forward_path(),
            Backend::Deluge(d) => d.port_forward_path(),
        }
    }
}

} // verus!
