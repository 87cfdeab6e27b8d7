//! The qBittorrent backend: a form-based web API. A login is one exchange; a
//! port update is two, because the port is read back after it was set. Each
//! function here decides on plain values; the exchange itself is left to the
//! caller.

use vstd::prelude::*;
use crate::apps::{
    endpoint, endpoint_text, exchange_view, fields_view, HttpRequest, HttpRequestView,
    HttpResponse, HttpResponseView, is_success_status, Protocol, status_is_success,
};
use crate::error::{outcome_view, Error, ErrorKind, ErrorView};
use crate::json::{json_view, parsed, Json, JsonValue};
use crate::text::{
    all_digits, append_decimal, decimal_digits, decimal_text, lemma_decimal_round_trip,
};

verus! {

/// The path that a login is posted to.
pub const QB_LOGIN_ENDPOINT: &'static str = "/api/v2/auth/login";

/// The path that new preferences are posted to.
pub const QB_SET_PREFERENCES_ENDPOINT: &'static str = "/api/v2/app/setPreferences";

/// The path that the preferences are read from.
pub const QB_GET_PREFERENCES_ENDPOINT: &'static str = "/api/v2/app/preferences";

/// What is needed to talk to a qBittorrent web interface.
#[derive(Debug)]
pub struct Qbittorrent {
    pub protocol: Protocol,
    pub hostname: String,
    pub port: u16,
    pub username: String,
    pub password: String,
    /// The path of the file that publishes the forwarded port.
    pub port_forward_path: String,
    /// The seconds to wait between two polls.
    pub interval: u64,
}

// ---------------------------------------------------------------------------
// What is sent
// ---------------------------------------------------------------------------

/// The form fields of a login.
pub open spec fn login_fields(username: Seq<char>, password: Seq<char>) -> Seq<
    (Seq<char>, Seq<char>),
> {
    seq![("username"@, username), ("password"@, password)]
}

/// The preferences that set the listening port, as the text of the form
/// field `json`.
pub open spec fn listen_port_preference(port: u16) -> Seq<char> {
    "{\"listen_port\":"@ + decimal_digits(port as nat) + " }"@
}

/// The form fields of a port update.
pub open spec fn preference_fields(port: u16) -> Seq<(Seq<char>, Seq<char>)> {
    seq![("json"@, listen_port_preference(port))]
}

// ---------------------------------------------------------------------------
// What comes back
// ---------------------------------------------------------------------------

/// What is reported for a request that was answered with a status outside
/// the 2xx range.
pub open spec fn status_failure(what: Seq<char>, status: u16) -> ErrorView {
    ErrorView::AppResponse(what + decimal_digits(status as nat))
}

/// What is reported where the number read back is not the port that was
/// set. `actual` is the number as the preferences write it.
pub open spec fn mismatch(actual: Seq<char>, expected: u16) -> ErrorView {
    ErrorView::PortUpdate(
        "Actual port "@ + actual + " does not match expected port number "@ + decimal_digits(
            expected as nat,
        ),
    )
}

/// What a login comes to: any 2xx status lets the caller in, any other
/// status is a rejection, a failed exchange is handed on.
pub open spec fn login_of(reply: Result<HttpResponseView, ErrorView>) -> Result<(), ErrorView> {
    match reply {
        Err(e) => Err(e),
        Ok(response) => if is_success_status(response.status) {
            Ok(())
        } else {
            Err(ErrorView::Authorization)
        },
    }
}

/// The number that a preferences document states as the listening port, in
/// full and as it is written: nothing is cut off and nothing is rounded. The
/// document has to be an object whose `listen_port` is a number.
pub open spec fn listen_port_of(document: JsonValue) -> Result<Seq<char>, ErrorView> {
    if !(document is Object) {
        Err(ErrorView::ParsingFailure("unable to parse preferences json object"@))
    } else {
        match document.member("listen_port"@) {
            Some(JsonValue::Number(number)) => Ok(number),
            _ => Err(
                ErrorView::ParsingFailure("current listen port json value is not a number"@),
            ),
        }
    }
}

/// The number that the answer to a preferences query states as the
/// listening port, given its status and the document that its body writes,
/// if it writes one.
pub open spec fn current_port_of(status: u16, document: Option<JsonValue>) -> Result<
    Seq<char>,
    ErrorView,
> {
    if !is_success_status(status) {
        Err(status_failure("get preference request failed with status code: "@, status))
    } else {
        match document {
            None => Err(ErrorView::ParsingFailure("unable to parse preferences as json"@)),
            Some(doc) => listen_port_of(doc),
        }
    }
}

/// The port counts as applied exactly where the number read back is the
/// port that was set, written in decimal notation. Any other number, be it
/// larger than a port can be, negative or with a fraction, is a mismatch.
pub open spec fn verified(expected: u16, actual: Seq<char>) -> Result<(), ErrorView> {
    if actual == decimal_digits(expected as nat) {
        Ok(())
    } else {
        Err(mismatch(actual, expected))
    }
}

/// The view of a number's text or the failure to get one.
pub open spec fn number_view(r: Result<String, Error>) -> Result<Seq<char>, ErrorView> {
    match r {
        Ok(number) => Ok(number@),
        Err(e) => Err(e@),
    }
}

// ---------------------------------------------------------------------------
// The port update
// ---------------------------------------------------------------------------

/// Where a port update stands: each state waits for the answer to one
/// request.
#[derive(Debug, Clone, Copy, PartialEq, Eq, Structural)]
pub enum PortUpdate {
    /// The new preferences have been posted.
    Applying(u16),
    /// The preferences have been asked for, to read the port back.
    Verifying(u16),
}

/// What the caller is to do next.
#[derive(Debug)]
pub enum Progress {
    /// Send the request and come back, in the given state, with what it
    /// brought.
    Send(PortUpdate, HttpRequest),
    /// The update is over.
    Done(Result<(), Error>),
}

/// The mathematical value of a [`Progress`].
pub enum ProgressView {
    Send(PortUpdate, HttpRequestView),
    Done(Result<(), ErrorView>),
}

impl View for Progress {
    type V = ProgressView;

    open spec fn view(&self) -> ProgressView {
        match self {
            Progress::Send(state, request) => ProgressView::Send(*state, request@),
            Progress::Done(Ok(_)) => ProgressView::Done(Ok(())),
            Progress::Done(Err(e)) => ProgressView::Done(Err(e@)),
        }
    }
}

/// What an exchange brought, with the body read as JSON.
pub struct Fetched {
    pub status: u16,
    /// The document that the body writes, if it writes one.
    pub document: Option<JsonValue>,
}

/// What an exchange brought, with the body read as JSON.
pub open spec fn fetched(reply: Result<HttpResponseView, ErrorView>) -> Result<
    Fetched,
    ErrorView,
> {
    match reply {
        Ok(response) => Ok(Fetched { status: response.status, document: parsed(response.body) }),
        Err(e) => Err(e),
    }
}

/// The transition table of a port update. `preferences` is the address that
/// the preferences are read from.
///
/// * A failed exchange ends the update with its failure.
/// * `Applying`: a 2xx status asks for the preferences; any other status
///   ends the update with a failure that names it.
/// * `Verifying`: the update succeeds exactly where the answer states the
///   port that was set; it fails where the answer cannot be read, and where
///   it states any other number.
pub open spec fn next_update(
    preferences: Seq<char>,
    state: PortUpdate,
    reply: Result<Fetched, ErrorView>,
) -> ProgressView {
    match reply {
        Err(e) => ProgressView::Done(Err(e)),
        Ok(answer) => match state {
            PortUpdate::Applying(port) => if is_success_status(answer.status) {
                ProgressView::Send(
                    PortUpdate::Verifying(port),
                    HttpRequestView::Get { url: preferences },
                )
            } else {
                ProgressView::Done(
                    Err(
                        status_failure(
                            "Port update request failed with status code: "@,
                            answer.status,
                        ),
                    ),
                )
            },
            PortUpdate::Verifying(port) => match current_port_of(answer.status, answer.document) {
                Err(e) => ProgressView::Done(Err(e)),
                Ok(actual) => ProgressView::Done(verified(port, actual)),
            },
        },
    }
}

fn status_error(what: &str, status: u16) -> (e: Error)
    ensures
        e@ == status_failure(what@, status),
{
    let mut detail = String::from_str(what);
    append_decimal(&mut detail, status as u128);
    Error::AppResponse(detail)
}

fn parsing_failure(detail: &str) -> (e: Error)
    ensures
        e@ == ErrorView::ParsingFailure(detail@),
{
    Error::ParsingFailure(String::from_str(detail))
}

impl Qbittorrent {
    /// The seconds to wait between two polls.
    pub fn interval(&self) -> (seconds: u64)
        ensures
            seconds == self.interval,
    {
        self.interval
    }

    /// The path of the file that publishes the forwarded port.
    pub fn port_forward_path(&self) -> (path: &str)
        ensures
            path@ == self.port_forward_path@,
    {
        self.port_forward_path.as_str()
    }

    /// The form fields of a login: user name and password.
    pub fn login_parameters(&self) -> (fields: Vec<(String, String)>)
        ensures
            fields_view(fields@) == login_fields(self.username@, self.password@),
    {
        let mut fields: Vec<(String, String)> = Vec::new();
        fields.push((String::from_str("username"), self.username.clone()));
        fields.push((String::from_str("password"), self.password.clone()));
        assert(fields_view(fields@) =~= login_fields(self.username@, self.password@));
        fields
    }

    /// The form fields of a port update.
    pub fn set_port_parameters(port: u16) -> (fields: Vec<(String, String)>)
        ensures
            fields_view(fields@) == preference_fields(port),
    {
        let mut json = String::from_str("{\"listen_port\":");
        append_decimal(&mut json, port as u128);
        json.append(" }");
        let mut fields: Vec<(String, String)> = Vec::new();
        fields.push((String::from_str("json"), json));
        assert(fields_view(fields@) =~= preference_fields(port));
        fields
    }

    /// The address that a login is posted to.
    pub fn login_endpoint(&self) -> (url: String)
        ensures
            url@ == endpoint_text(self.protocol, self.hostname@, self.port, QB_LOGIN_ENDPOINT@),
    {
        endpoint(self.protocol, self.hostname.as_str(), self.port, QB_LOGIN_ENDPOINT)
    }

    /// The address that new preferences are posted to.
    pub fn set_preference_endpoint(&self) -> (url: String)
        ensures
            url@ == endpoint_text(
                self.protocol,
                self.hostname@,
                self.port,
                QB_SET_PREFERENCES_ENDPOINT@,
            ),
    {
        endpoint(self.protocol, self.hostname.as_str(), self.port, QB_SET_PREFERENCES_ENDPOINT)
    }

    /// The address that the preferences are read from.
    pub fn get_preference_endpoint(&self) -> (url: String)
        ensures
            url@ == endpoint_text(
                self.protocol,
                self.hostname@,
                self.port,
                QB_GET_PREFERENCES_ENDPOINT@,
            ),
    {
        endpoint(self.protocol, self.hostname.as_str(), self.port, QB_GET_PREFERENCES_ENDPOINT)
    }

    /// The request that logs in.
    pub fn login_request(&self) -> (request: HttpRequest)
        ensures
            request@ == (HttpRequestView::PostForm {
                url: endpoint_text(self.protocol, self.hostname@, self.port, QB_LOGIN_ENDPOINT@),
                fields: login_fields(self.username@, self.password@),
            }),
    {
        HttpRequest::PostForm { url: self.login_endpoint(), fields: self.login_parameters() }
    }

    /// What a login comes to, given what its request brought.
    pub fn login(reply: Result<HttpResponse, Error>) -> (r: Result<(), Error>)
        ensures
            outcome_view(r) == login_of(exchange_view(reply)),
    {
        match reply {
            Err(e) => Err(e),
            Ok(response) => {
                if status_is_success(response.status) {
                    Ok(())
                } else {
                    Err(Error::Authorization)
                }
            },
        }
    }

    /// The number that a preferences document states as the listening
    /// port, in full and as it is written.
    pub fn listen_port(document: &Json) -> (r: Result<String, Error>)
        ensures
            number_view(r) == listen_port_of(document@),
    {
        if document.as_object().is_none() {
            return Err(parsing_failure("unable to parse preferences json object"));
        }
        match document.get("listen_port") {
            Some(Json::Number(number)) => Ok(number.clone()),
            _ => Err(parsing_failure("current listen port json value is not a number")),
        }
    }

    /// The number that the answer to a preferences query states as the
    /// listening port, given its status and the document that its body
    /// writes.
    pub fn current_listen_port(status: u16, document: Option<&Json>) -> (r: Result<String, Error>)
        ensures
            number_view(r) == current_port_of(status, json_view(document)),
    {
        if !status_is_success(status) {
            return Err(status_error("get preference request failed with status code: ", status));
        }
        match document {
            None => Err(parsing_failure("unable to parse preferences as json")),
            Some(doc) => Qbittorrent::listen_port(doc),
        }
    }

    /// The number that the answer to a preferences query states as the
    /// listening port, given its status and the text of its body.
    pub fn get_current_listen_port(status: u16, body: &str) -> (r: Result<String, Error>)
        ensures
            number_view(r) == current_port_of(status, parsed(body@)),
    {
        let document = Json::from_text(body);
        Qbittorrent::current_listen_port(status, document.as_ref())
    }

    /// Whether the number read back is the port that was set. `actual` is
    /// the number as the preferences write it.
    pub fn verify_port(expected: u16, actual: &str) -> (r: Result<(), Error>)
        ensures
            outcome_view(r) == verified(expected, actual@),
            r is Ok <==> actual@ == decimal_digits(expected as nat),
    {
        let wanted = decimal_text(expected as u128);
        let found = String::from_str(actual);
        if found == wanted {
            Ok(())
        } else {
            let mut detail = String::from_str("Actual port ");
            detail.append(actual);
            detail.append(" does not match expected port number ");
            detail.append(wanted.as_str());
            Err(Error::PortUpdate(detail))
        }
    }

    /// The first step of a port update: the new preferences are posted.
    pub fn set_port_begin(&self, port: u16) -> (progress: Progress)
        ensures
            progress@ == ProgressView::Send(
                PortUpdate::Applying(port),
                HttpRequestView::PostForm {
                    url: endpoint_text(
                        self.protocol,
                        self.hostname@,
                        self.port,
                        QB_SET_PREFERENCES_ENDPOINT@,
                    ),
                    fields: preference_fields(port),
                },
            ),
    {
        Progress::Send(
            PortUpdate::Applying(port),
            HttpRequest::PostForm {
                url: self.set_preference_endpoint(),
                fields: Qbittorrent::set_port_parameters(port),
            },
        )
    }

    /// One step of a port update: given the state and what its request
    /// brought, what to do next, as the transition table has it.
    pub fn set_port(&self, state: PortUpdate, reply: Result<HttpResponse, Error>) -> (progress:
        Progress)
        ensures
            progress@ == next_update(
                endpoint_text(
                    self.protocol,
                    self.hostname@,
                    self.port,
                    QB_GET_PREFERENCES_ENDPOINT@,
                ),
                state,
                fetched(exchange_view(reply)),
            ),
    {
        match reply {
            Err(e) => Progress::Done(Err(e)),
            Ok(response) => match state {
                PortUpdate::Applying(port) => {
                    if status_is_success(response.status) {
                        Progress::Send(
                            PortUpdate::Verifying(port),
                            HttpRequest::Get { url: self.get_preference_endpoint() },
                        )
                    } else {
                        Progress::Done(
                            Err(
                                status_error(
                                    "Port update request failed with status code: ",
                                    response.status,
                                ),
                            ),
                        )
                    }
                },
                PortUpdate::Verifying(port) => {
                    match Qbittorrent::get_current_listen_port(
                        response.status,
                        response.body.as_str(),
                    ) {
                        Err(e) => Progress::Done(Err(e)),
                        Ok(actual) => Progress::Done(
                            Qbittorrent::verify_port(port, actual.as_str()),
                        ),
                    }
                },
            },
        }
    }
}

// ---------------------------------------------------------------------------
// What holds of every port update
// ---------------------------------------------------------------------------

/// Where the preferences were posted with success but the number read back
/// is not the port that was set, the update fails with a port mismatch: it
/// is no success.
pub proof fn lemma_mismatch_is_reported(
    preferences: Seq<char>,
    port: u16,
    status: u16,
    document: Option<JsonValue>,
)
    requires
        current_port_of(status, document) is Ok,
        current_port_of(status, document)->Ok_0 != decimal_digits(port as nat),
    ensures
        next_update(preferences, PortUpdate::Verifying(port), Ok(Fetched { status, document }))
            == ProgressView::Done(Err(mismatch(current_port_of(status, document)->Ok_0, port))),
        mismatch(current_port_of(status, document)->Ok_0, port).kind()
            == ErrorKind::PortVerificationMismatch,
{
}

/// Every number but the port itself is a mismatch, however large it is: a
/// number that differs from the port by a multiple of 65536 is one too.
pub proof fn lemma_other_number_is_a_mismatch(expected: u16, actual: nat)
    requires
        actual != expected,
    ensures
        verified(expected, decimal_digits(actual)) == Err::<(), ErrorView>(
            mismatch(decimal_digits(actual), expected),
        ),
        verified(expected, decimal_digits(expected as nat)) == Ok::<(), ErrorView>(()),
{
    lemma_decimal_round_trip(actual);
    lemma_decimal_round_trip(expected as nat);
}

/// A number that is not written with digits alone, such as a negative one
/// or one with a fraction, is a mismatch for every port.
pub proof fn lemma_no_port_number_is_a_mismatch(expected: u16, actual: Seq<char>)
    requires
        !all_digits(actual),
    ensures
        verified(expected, actual) == Err::<(), ErrorView>(mismatch(actual, expected)),
{
    lemma_decimal_round_trip(expected as nat);
}

/// A port update succeeds only after the port was read back and found to be
/// the one that was set.
pub proof fn lemma_success_needs_read_back(
    preferences: Seq<char>,
    state: PortUpdate,
    reply: Result<Fetched, ErrorView>,
)
    requires
        next_update(preferences, state, reply) == ProgressView::Done(Ok(())),
    ensures
        state is Verifying,
        reply is Ok,
        current_port_of(reply->Ok_0.status, reply->Ok_0.document) == Ok::<Seq<char>, ErrorView>(
            decimal_digits(state->Verifying_0 as nat),
        ),
{
}

} // verus!
