//! The Deluge backend: a JSON-RPC service that wants a negotiation before it
//! takes commands. Each function here decides on plain values; sending a
//! request and fetching its response is left to the caller.

use vstd::prelude::*;
use crate::apps::{
    endpoint, endpoint_text, exchange_view, HttpRequest, HttpRequestView, HttpResponse,
    HttpResponseView, Protocol,
};
use crate::error::{outcome_view, Error, ErrorView};
use crate::json::{
    items_view, members_view, parsed, printed, stored, Json, JsonValue, MemberValue,
};
use crate::rpc::{
    reply_view, response_of_document, JsonRpcVersion, RpcId, RpcIdView, RpcOutcomeView,
    RpcRequest, RpcRequestView, RpcResponse, RpcResponseView,
};
use crate::text::decimal_digits;

verus! {

/// The method that logs in with the password.
pub const AUTH_METHOD: &'static str = "auth.login";

/// The method that lists the hosts to connect to.
pub const GET_HOSTS_METHOD: &'static str = "web.get_hosts";

/// The method that connects the web interface to a host.
pub const CONNECT_METHOD: &'static str = "web.connect";

/// The method that asks whether the web interface is connected.
pub const CONNECTED_METHOD: &'static str = "web.connected";

/// The method that changes the configuration.
pub const SET_CONFIG_METHOD: &'static str = "core.set_config";

/// The path of the endpoint that takes the requests.
pub const DELUGE_ENDPOINT: &'static str = "/json";

/// A daemon that the web interface can connect to.
#[derive(Debug)]
pub struct DelugeHostResponse {
    pub id: String,
    pub host: String,
    pub port: u64,
    pub username: String,
}

/// The mathematical value of a [`DelugeHostResponse`].
pub struct HostView {
    pub id: Seq<char>,
    pub host: Seq<char>,
    pub port: nat,
    pub username: Seq<char>,
}

impl View for DelugeHostResponse {
    type V = HostView;

    open spec fn view(&self) -> HostView {
        HostView {
            id: self.id@,
            host: self.host@,
            port: self.port as nat,
            username: self.username@,
        }
    }
}

/// The values of a sequence of hosts.
pub open spec fn hosts_view(hosts: Seq<DelugeHostResponse>) -> Seq<HostView> {
    Seq::new(hosts.len(), |i: int| hosts[i]@)
}

/// What is needed to talk to a Deluge web interface.
#[derive(Debug)]
pub struct Deluge {
    pub protocol: Protocol,
    pub hostname: String,
    pub port: u16,
    pub password: String,
    /// The path of the file that publishes the forwarded port.
    pub port_forward_path: String,
    /// The seconds to wait between two polls.
    pub interval: u64,
}

// ---------------------------------------------------------------------------
// What each response means
// ---------------------------------------------------------------------------

/// A failure of the application's answer, with its description.
pub open spec fn app_failure(detail: Seq<char>) -> ErrorView {
    ErrorView::AppResponse(detail)
}

/// The host that an entry of the host list describes by position: id,
/// address, port, user name. The id, the address and the user name have to
/// be strings, the port an unsigned integer of at most 64 bits. An entry
/// that lacks one of the four, or holds a value of another kind in its
/// place, describes no host; the failure names the first such place. An
/// entry of more than four elements describes no host either.
pub open spec fn host_of(entry: Seq<JsonValue>) -> Result<HostView, ErrorView> {
    if entry.len() < 1 || !(entry[0] is String) {
        Err(app_failure("Could not get id value for DelugeHostResponse"@))
    } else if entry.len() < 2 || !(entry[1] is String) {
        Err(app_failure("Could not get host value for DelugeHostResponse"@))
    } else if entry.len() < 3 || entry[2].unsigned(u64::MAX as nat) is None {
        Err(app_failure("Could not get port value for DelugeHostResponse"@))
    } else if entry.len() < 4 || !(entry[3] is String) {
        Err(app_failure("Could not get username value for DelugeHostResponse"@))
    } else if entry.len() > 4 {
        Err(app_failure("Could not read DelugeHostResponse from more than four values"@))
    } else {
        Ok(
            HostView {
                id: entry[0]->String_0,
                host: entry[1]->String_0,
                port: entry[2].unsigned(u64::MAX as nat)->Some_0,
                username: entry[3]->String_0,
            },
        )
    }
}

/// What is reported for an item of the host list that is no list itself.
pub open spec fn no_entry_failure() -> ErrorView {
    app_failure("Deluge web.get_hosts returned a host that is no list"@)
}

/// The host that an item of the host list describes. An item that is no
/// array describes none.
pub open spec fn host_of_item(item: JsonValue) -> Result<HostView, ErrorView> {
    match item {
        JsonValue::Array(entry) => host_of(entry),
        _ => Err(no_entry_failure()),
    }
}

/// The hosts that a list describes, in its order. The first item that
/// describes no host fails the whole list with its error: nothing is passed
/// over.
pub open spec fn hosts_of_items(items: Seq<JsonValue>) -> Result<Seq<HostView>, ErrorView>
    decreases items.len(),
{
    if items.len() == 0 {
        Ok(Seq::empty())
    } else {
        match hosts_of_items(items.drop_last()) {
            Err(e) => Err(e),
            Ok(before) => match host_of_item(items.last()) {
                Ok(host) => Ok(before.push(host)),
                Err(e) => Err(e),
            },
        }
    }
}

/// What the answer to `web.connected` says: whether the web interface is
/// connected to a daemon.
pub open spec fn connected_of(response: RpcResponseView) -> Result<bool, ErrorView> {
    match response.error {
        Some(e) => Err(app_failure("Deluge web.connected with message -> "@ + e.message)),
        None => match response.result {
            JsonValue::Bool(b) => Ok(b),
            _ => Err(app_failure("Deluge web.connected"@)),
        },
    }
}

/// What the answer to `auth.login` says: `true` lets the caller in, `false`
/// rejects the password, anything else is no answer to the question.
pub open spec fn authorized_of(response: RpcResponseView) -> Result<(), ErrorView> {
    match response.error {
        Some(_) => Err(app_failure("Deluge auth.login"@)),
        None => match response.result {
            JsonValue::Bool(true) => Ok(()),
            JsonValue::Bool(false) => Err(ErrorView::Authorization),
            _ => Err(app_failure("Deluge auth.login"@)),
        },
    }
}

/// What the answer to `web.get_hosts` says: the hosts to connect to.
pub open spec fn hosts_of(response: RpcResponseView) -> Result<Seq<HostView>, ErrorView> {
    match response.error {
        Some(e) => Err(app_failure("Deluge web.get_hosts with message -> "@ + e.message)),
        None => match response.result {
            JsonValue::Array(items) => hosts_of_items(items),
            _ => Err(app_failure("Deluge web.get_hosts "@)),
        },
    }
}

/// What the answer to `web.connect` says: any answer without an error is a
/// success.
pub open spec fn connect_of(response: RpcResponseView, host_id: Seq<char>) -> Result<
    (),
    ErrorView,
> {
    match response.error {
        Some(_) => Err(
            app_failure("Deluge web.connect was unable to connect with host ID "@ + host_id),
        ),
        None => Ok(()),
    }
}

/// What the answer to `core.set_config` says: any answer without an error
/// is a success; the port is not read back.
pub open spec fn set_port_of(response: RpcResponseView) -> Result<(), ErrorView> {
    match response.error {
        Some(_) => Err(app_failure("Deluge core.set_config"@)),
        None => Ok(()),
    }
}

/// The view of a truth value or the failure to get one.
pub open spec fn flag_view(r: Result<bool, Error>) -> Result<bool, ErrorView> {
    match r {
        Ok(b) => Ok(b),
        Err(e) => Err(e@),
    }
}

/// The view of a host or the failure to get one.
pub open spec fn host_view(r: Result<DelugeHostResponse, Error>) -> Result<HostView, ErrorView> {
    match r {
        Ok(h) => Ok(h@),
        Err(e) => Err(e@),
    }
}

/// The view of a list of hosts or the failure to get one.
pub open spec fn host_list_view(r: Result<Vec<DelugeHostResponse>, Error>) -> Result<
    Seq<HostView>,
    ErrorView,
> {
    match r {
        Ok(hosts) => Ok(hosts_view(hosts@)),
        Err(e) => Err(e@),
    }
}

/// Once a part of the list has failed, the whole list fails in the same way.
pub proof fn lemma_hosts_failure_stays(items: Seq<JsonValue>, k: int)
    requires
        0 <= k <= items.len(),
        hosts_of_items(items.take(k)) is Err,
    ensures
        hosts_of_items(items) == hosts_of_items(items.take(k)),
    decreases items.len() - k,
{
    if k < items.len() {
        assert(items.take(k + 1).drop_last() =~= items.take(k));
        lemma_hosts_failure_stays(items, k + 1);
    } else {
        assert(items.take(k) =~= items);
    }
}

/// A list with an item that describes no host describes no hosts: reading
/// it fails.
pub proof fn lemma_bad_item_fails(items: Seq<JsonValue>, k: int)
    requires
        0 <= k < items.len(),
        host_of_item(items[k]) is Err,
    ensures
        hosts_of_items(items) is Err,
{
    assert(items.take(k + 1).drop_last() =~= items.take(k));
    assert(items.take(k + 1).last() == items[k]);
    assert(hosts_of_items(items.take(k + 1)) is Err);
    lemma_hosts_failure_stays(items, k + 1);
}

/// A list that holds an entry with fewer than four elements describes no
/// hosts: reading it fails.
pub proof fn lemma_short_entry_fails(items: Seq<JsonValue>, k: int)
    requires
        0 <= k < items.len(),
        items[k] is Array,
        items[k]->Array_0.len() < 4,
    ensures
        hosts_of_items(items) is Err,
{
    lemma_bad_item_fails(items, k);
}

/// A list that holds an item that is no array describes no hosts: the item
/// is not passed over.
pub proof fn lemma_stray_item_fails(items: Seq<JsonValue>, k: int)
    requires
        0 <= k < items.len(),
        !(items[k] is Array),
    ensures
        hosts_of_items(items) is Err,
{
    lemma_bad_item_fails(items, k);
}

/// Where a list describes hosts, it describes one for each of its items, in
/// their order.
pub proof fn lemma_hosts_are_all_items(items: Seq<JsonValue>)
    requires
        hosts_of_items(items) is Ok,
    ensures
        hosts_of_items(items)->Ok_0.len() == items.len(),
        forall|k: int|
            0 <= k < items.len() ==> host_of_item(#[trigger] items[k]) == Ok::<
                HostView,
                ErrorView,
            >(hosts_of_items(items)->Ok_0[k]),
    decreases items.len(),
{
    if items.len() > 0 {
        let before = items.drop_last();
        lemma_hosts_are_all_items(before);
        assert forall|k: int| 0 <= k < items.len() implies host_of_item(#[trigger] items[k])
            == Ok::<HostView, ErrorView>(hosts_of_items(items)->Ok_0[k]) by {
            if k < items.len() - 1 {
                assert(before[k] == items[k]);
            }
        }
    }
}

fn app_response(detail: &str) -> (e: Error)
    ensures
        e@ == app_failure(detail@),
{
    Error::AppResponse(String::from_str(detail))
}

fn app_response_with(detail: &str, more: &str) -> (e: Error)
    ensures
        e@ == app_failure(detail@ + more@),
{
    Error::AppResponse(String::from_str(detail).concat(more))
}

impl Deluge {
    /// The address that the requests are posted to.
    pub fn endpoint(&self) -> (url: String)
        ensures
            url@ == endpoint_text(self.protocol, self.hostname@, self.port, DELUGE_ENDPOINT@),
    {
        endpoint(self.protocol, self.hostname.as_str(), self.port, DELUGE_ENDPOINT)
    }

    /// The seconds to wait between two polls.
    pub fn interval(&self) -> (seconds: u64)
        ensures
            seconds == self.interval,
    {
        self.interval
    }

    /// The path of the file that publishes the forwarded port.
    pub fn port_forward_path(&self) -> (path: &str)
        ensures
            path@ == self.port_forward_path@,
    {
        self.port_forward_path.as_str()
    }

    /// Reads one entry of the host list by position. Succeeds exactly where
    /// the entry has four elements, each of the kind that its place asks
    /// for.
    pub fn decode_host(entry: &Vec<Json>) -> (r: Result<DelugeHostResponse, Error>)
        ensures
            host_view(r) == host_of(items_view(entry@)),
            entry@.len() < 4 ==> r is Err,
            r is Ok <==> {
                &&& entry@.len() == 4
                &&& entry@[0]@ is String
                &&& entry@[1]@ is String
                &&& entry@[2]@.unsigned(u64::MAX as nat) is Some
                &&& entry@[3]@ is String
            },
    {
        let id = if entry.len() < 1 {
            None
        } else {
            entry[0].as_str()
        };
        let id = match id {
            Some(text) => String::from_str(text),
            None => {
                return Err(app_response("Could not get id value for DelugeHostResponse"));
            },
        };
        let host = if entry.len() < 2 {
            None
        } else {
            entry[1].as_str()
        };
        let host = match host {
            Some(text) => String::from_str(text),
            None => {
                return Err(app_response("Could not get host value for DelugeHostResponse"));
            },
        };
        let port = if entry.len() < 3 {
            None
        } else {
            entry[2].as_u64()
        };
        let port = match port {
            Some(number) => number,
            None => {
                return Err(app_response("Could not get port value for DelugeHostResponse"));
            },
        };
        let username = if entry.len() < 4 {
            None
        } else {
            entry[3].as_str()
        };
        let username = match username {
            Some(text) => String::from_str(text),
            None => {
                return Err(app_response("Could not get username value for DelugeHostResponse"));
            },
        };
        if entry.len() > 4 {
            return Err(
                app_response("Could not read DelugeHostResponse from more than four values"),
            );
        }
        Ok(DelugeHostResponse { id, host, port, username })
    }

    /// Reads one item of the host list. Fails where the item is no array,
    /// and where the array describes no host.
    pub fn decode_item(item: &Json) -> (r: Result<DelugeHostResponse, Error>)
        ensures
            host_view(r) == host_of_item(item@),
    {
        match item.as_array() {
            Some(entry) => Deluge::decode_host(entry),
            None => Err(app_response("Deluge web.get_hosts returned a host that is no list")),
        }
    }

    /// Reads the answer to `web.connected`.
    pub fn is_connected(response: &RpcResponse) -> (r: Result<bool, Error>)
        ensures
            flag_view(r) == connected_of(response@),
    {
        match response.error() {
            Some(e) => Err(app_response_with("Deluge web.connected with message -> ", e.message())),
            None => match response.result().as_bool() {
                Some(b) => Ok(b),
                None => Err(app_response("Deluge web.connected")),
            },
        }
    }

    /// Reads the answer to `auth.login`. A `false` is the rejection of the
    /// password, reported as `Authorization`.
    pub fn authorize(response: &RpcResponse) -> (r: Result<(), Error>)
        ensures
            outcome_view(r) == authorized_of(response@),
    {
        if response.is_success() {
            match response.result().as_bool() {
                Some(true) => Ok(()),
                Some(false) => Err(Error::Authorization),
                None => Err(app_response("Deluge auth.login")),
            }
        } else {
            Err(app_response("Deluge auth.login"))
        }
    }

    /// Reads the answer to `web.get_hosts`.
    pub fn get_hosts(response: &RpcResponse) -> (r: Result<Vec<DelugeHostResponse>, Error>)
        ensures
            host_list_view(r) == hosts_of(response@),
    {
        match response.error() {
            Some(e) => {
                return Err(
                    app_response_with("Deluge web.get_hosts with message -> ", e.message()),
                );
            },
            None => {},
        }
        let items = match response.result().as_array() {
            Some(items) => items,
            None => {
                return Err(app_response("Deluge web.get_hosts "));
            },
        };
        let ghost all = items_view(items@);
        let mut hosts: Vec<DelugeHostResponse> = Vec::new();
        let mut i: usize = 0;
        assert(all.take(0) =~= Seq::<JsonValue>::empty());
        assert(hosts_view(hosts@) =~= Seq::<HostView>::empty());
        while i < items.len()
            invariant
                i <= items@.len(),
                all == items_view(items@),
                hosts_of(response@) == hosts_of_items(all),
                hosts_of_items(all.take(i as int)) == Ok::<Seq<HostView>, ErrorView>(
                    hosts_view(hosts@),
                ),
            decreases items@.len() - i,
        {
            proof {
                assert(all.take(i + 1).drop_last() =~= all.take(i as int));
                assert(all.take(i + 1).last() == items@[i as int]@);
            }
            let ghost before = hosts_view(hosts@);
            match Deluge::decode_item(&items[i]) {
                Ok(host) => {
                    hosts.push(host);
                    assert(hosts_view(hosts@) =~= before.push(host@));
                },
                Err(e) => {
                    proof {
                        lemma_hosts_failure_stays(all, i + 1);
                    }
                    return Err(e);
                },
            }
            i = i + 1;
        }
        assert(all.take(i as int) =~= all);
        Ok(hosts)
    }

    /// Reads the answer to `web.connect` for the host `host_id`.
    pub fn connect(response: &RpcResponse, host_id: &str) -> (r: Result<(), Error>)
        ensures
            outcome_view(r) == connect_of(response@, host_id@),
    {
        if !response.is_success() {
            Err(
                app_response_with(
                    "Deluge web.connect was unable to connect with host ID ",
                    host_id,
                ),
            )
        } else {
            Ok(())
        }
    }

    /// Reads the answer to `core.set_config`: the port counts as applied
    /// exactly where the answer carries no error.
    pub fn set_port(response: &RpcResponse) -> (r: Result<(), Error>)
        ensures
            outcome_view(r) == set_port_of(response@),
            r is Ok <==> response@.error is None,
    {
        if response.is_success() {
            Ok(())
        } else {
            Err(app_response("Deluge core.set_config"))
        }
    }
}

// ---------------------------------------------------------------------------
// The requests
// ---------------------------------------------------------------------------

/// The request that asks whether the web interface is connected to a daemon.
pub open spec fn connected_request(id: RpcIdView) -> RpcRequestView {
    RpcRequestView::new(
        JsonRpcVersion::V1,
        CONNECTED_METHOD@,
        JsonValue::Array(Seq::empty()),
        id,
    )
}

/// The request that logs in with a password.
pub open spec fn authorize_request(password: Seq<char>, id: RpcIdView) -> RpcRequestView {
    RpcRequestView::new(
        JsonRpcVersion::V1,
        AUTH_METHOD@,
        JsonValue::Array(seq![JsonValue::String(password)]),
        id,
    )
}

/// The request that asks for the hosts to connect to.
pub open spec fn hosts_request(id: RpcIdView) -> RpcRequestView {
    RpcRequestView::new(
        JsonRpcVersion::V1,
        GET_HOSTS_METHOD@,
        JsonValue::Array(Seq::empty()),
        id,
    )
}

/// The request that connects the web interface to a host.
pub open spec fn connect_request(host_id: Seq<char>, id: RpcIdView) -> RpcRequestView {
    RpcRequestView::new(
        JsonRpcVersion::V1,
        CONNECT_METHOD@,
        JsonValue::Array(seq![JsonValue::String(host_id)]),
        id,
    )
}

/// The parameters that set the listening port: one object whose
/// `listen_ports` is the range from the port to itself.
pub open spec fn listen_ports(port: u16) -> JsonValue {
    let number = JsonValue::Number(decimal_digits(port as nat));
    JsonValue::Array(
        seq![
            JsonValue::Object(
                seq![
                    MemberValue {
                        name: "listen_ports"@,
                        value: JsonValue::Array(seq![number, number]),
                    },
                ],
            ),
        ],
    )
}

/// The request that sets the listening port.
pub open spec fn set_port_request(port: u16, id: RpcIdView) -> RpcRequestView {
    RpcRequestView::new(JsonRpcVersion::V1, SET_CONFIG_METHOD@, listen_ports(port), id)
}

fn no_params() -> (doc: Json)
    ensures
        doc@ == JsonValue::Array(Seq::empty()),
{
    let items: Vec<Json> = Vec::new();
    let doc = Json::array(items);
    assert(items_view(items@) =~= Seq::<JsonValue>::empty());
    doc
}

fn one_text(text: &str) -> (doc: Json)
    ensures
        doc@ == JsonValue::Array(seq![JsonValue::String(text@)]),
{
    let mut items: Vec<Json> = Vec::new();
    items.push(Json::string(text));
    let doc = Json::array(items);
    assert(items_view(items@) =~= seq![JsonValue::String(text@)]);
    doc
}

impl Deluge {
    /// The request that asks whether the web interface is connected.
    pub fn is_connected_request(id: RpcId) -> (request: RpcRequest)
        ensures
            request@ == connected_request(id@),
    {
        RpcRequest::new(JsonRpcVersion::V1, CONNECTED_METHOD, no_params(), id)
    }

    /// The request that logs in with the configured password.
    pub fn authorize_request(&self, id: RpcId) -> (request: RpcRequest)
        ensures
            request@ == authorize_request(self.password@, id@),
    {
        RpcRequest::new(JsonRpcVersion::V1, AUTH_METHOD, one_text(self.password.as_str()), id)
    }

    /// The request that asks for the hosts to connect to.
    pub fn get_hosts_request(id: RpcId) -> (request: RpcRequest)
        ensures
            request@ == hosts_request(id@),
    {
        RpcRequest::new(JsonRpcVersion::V1, GET_HOSTS_METHOD, no_params(), id)
    }

    /// The request that connects the web interface to the host `host_id`.
    pub fn connect_request(host_id: &str, id: RpcId) -> (request: RpcRequest)
        ensures
            request@ == connect_request(host_id@, id@),
    {
        RpcRequest::new(JsonRpcVersion::V1, CONNECT_METHOD, one_text(host_id), id)
    }

    /// The request that sets the listening port to `port`.
    pub fn set_port_request(port: u16, id: RpcId) -> (request: RpcRequest)
        ensures
            request@ == set_port_request(port, id@),
    {
        let mut range: Vec<Json> = Vec::new();
        range.push(Json::number(port as u128));
        range.push(Json::number(port as u128));
        let range_doc = Json::array(range);
        let ghost number = JsonValue::Number(decimal_digits(port as nat));
        assert(items_view(range@) =~= seq![number, number]);
        let mut members: Vec<(String, Json)> = Vec::new();
        members.push((String::from_str("listen_ports"), range_doc));
        let object = Json::object(members);
        assert(members_view(members@) =~= seq![
            MemberValue { name: "listen_ports"@, value: JsonValue::Array(seq![number, number]) },
        ]);
        let mut params: Vec<Json> = Vec::new();
        params.push(object);
        let doc = Json::array(params);
        assert(items_view(params@) =~= seq![object@]);
        RpcRequest::new(JsonRpcVersion::V1, SET_CONFIG_METHOD, doc, id)
    }
}

// ---------------------------------------------------------------------------
// The negotiation
// ---------------------------------------------------------------------------

/// Where the negotiation with the web interface stands. Each state but the
/// first and the last waits for the answer to one request.
#[derive(Debug)]
pub enum Negotiation {
    /// Nothing is known and nothing has been asked.
    Unknown,
    /// `web.connected` has been asked.
    CheckingConnection,
    /// `auth.login` has been asked.
    Authorizing,
    /// `web.get_hosts` has been asked.
    EnumeratingHosts,
    /// `web.connect` has been asked for the host `host_id`.
    Connecting { host_id: String },
    /// The web interface is connected to a daemon: commands can be sent.
    Connected,
}

/// The mathematical value of a [`Negotiation`].
pub enum NegotiationView {
    Unknown,
    CheckingConnection,
    Authorizing,
    EnumeratingHosts,
    Connecting { host_id: Seq<char> },
    Connected,
}

impl View for Negotiation {
    type V = NegotiationView;

    open spec fn view(&self) -> NegotiationView {
        match self {
            Negotiation::Unknown => NegotiationView::Unknown,
            Negotiation::CheckingConnection => NegotiationView::CheckingConnection,
            Negotiation::Authorizing => NegotiationView::Authorizing,
            Negotiation::EnumeratingHosts => NegotiationView::EnumeratingHosts,
            Negotiation::Connecting { host_id } => NegotiationView::Connecting {
                host_id: host_id@,
            },
            Negotiation::Connected => NegotiationView::Connected,
        }
    }
}

/// What the caller is to do next.
#[derive(Debug)]
pub enum Move {
    /// Send the request and come back with what it brought.
    Send(RpcRequest),
    /// The login is complete.
    Succeed,
    /// The login has failed; a new attempt starts from the beginning.
    Fail(Error),
}

/// The mathematical value of a [`Move`].
pub enum MoveView {
    Send(RpcRequestView),
    Succeed,
    Fail(ErrorView),
}

impl View for Move {
    type V = MoveView;

    open spec fn view(&self) -> MoveView {
        match self {
            Move::Send(request) => MoveView::Send(request@),
            Move::Succeed => MoveView::Succeed,
            Move::Fail(e) => MoveView::Fail(e@),
        }
    }
}

/// A step of the negotiation: the state it leads to and what to do there.
#[derive(Debug)]
pub struct Step {
    pub state: Negotiation,
    pub action: Move,
}

/// The mathematical value of a [`Step`].
pub struct StepView {
    pub state: NegotiationView,
    pub action: MoveView,
}

impl View for Step {
    type V = StepView;

    open spec fn view(&self) -> StepView {
        StepView { state: self.state@, action: self.action@ }
    }
}

/// What is reported where the host list is empty.
pub open spec fn no_host_failure() -> ErrorView {
    app_failure("Deluge web.get_hosts returned no host available to connect"@)
}

/// A failed step: the negotiation is back at the start.
pub open spec fn failed(e: ErrorView) -> StepView {
    StepView { state: NegotiationView::Unknown, action: MoveView::Fail(e) }
}

/// A completed negotiation.
pub open spec fn connected() -> StepView {
    StepView { state: NegotiationView::Connected, action: MoveView::Succeed }
}

/// The transition table of the negotiation. `reply` is what the request of
/// the current state brought, `id` the id for the request that may follow.
///
/// * `Unknown` asks `web.connected`, whatever `reply` holds.
/// * `Connected` stays as it is.
/// * In every other state a reply that is a failure, or an answer that the
///   state's question does not allow, fails the attempt and sends nothing.
/// * `CheckingConnection`: `true` completes the negotiation at once, `false`
///   asks `auth.login`.
/// * `Authorizing`: `true` asks `web.get_hosts`.
/// * `EnumeratingHosts`: the first host is asked to connect; an empty list
///   fails the attempt.
/// * `Connecting`: an answer without error completes the negotiation.
pub open spec fn next_step(
    password: Seq<char>,
    state: NegotiationView,
    reply: Result<RpcResponseView, ErrorView>,
    id: RpcIdView,
) -> StepView {
    match state {
        NegotiationView::Unknown => StepView {
            state: NegotiationView::CheckingConnection,
            action: MoveView::Send(connected_request(id)),
        },
        NegotiationView::Connected => connected(),
        NegotiationView::CheckingConnection => match reply {
            Err(e) => failed(e),
            Ok(response) => match connected_of(response) {
                Err(e) => failed(e),
                Ok(true) => connected(),
                Ok(false) => StepView {
                    state: NegotiationView::Authorizing,
                    action: MoveView::Send(authorize_request(password, id)),
                },
            },
        },
        NegotiationView::Authorizing => match reply {
            Err(e) => failed(e),
            Ok(response) => match authorized_of(response) {
                Err(e) => failed(e),
                Ok(_) => StepView {
                    state: NegotiationView::EnumeratingHosts,
                    action: MoveView::Send(hosts_request(id)),
                },
            },
        },
        NegotiationView::EnumeratingHosts => match reply {
            Err(e) => failed(e),
            Ok(response) => match hosts_of(response) {
                Err(e) => failed(e),
                Ok(hosts) => if hosts.len() == 0 {
                    failed(no_host_failure())
                } else {
                    StepView {
                        state: NegotiationView::Connecting { host_id: hosts[0].id },
                        action: MoveView::Send(connect_request(hosts[0].id, id)),
                    }
                },
            },
        },
        NegotiationView::Connecting { host_id } => match reply {
            Err(e) => failed(e),
            Ok(response) => match connect_of(response, host_id) {
                Err(e) => failed(e),
                Ok(_) => connected(),
            },
        },
    }
}

fn fail(e: Error) -> (step: Step)
    ensures
        step@ == failed(e@),
{
    Step { state: Negotiation::Unknown, action: Move::Fail(e) }
}

fn complete() -> (step: Step)
    ensures
        step@ == connected(),
{
    Step { state: Negotiation::Connected, action: Move::Succeed }
}

impl Deluge {
    /// The first step of a login: `web.connected` is asked.
    pub fn login_begin(&self, id: RpcId) -> (step: Step)
        ensures
            step@.state == NegotiationView::CheckingConnection,
            step@.action == MoveView::Send(connected_request(id@)),
    {
        Step {
            state: Negotiation::CheckingConnection,
            action: Move::Send(Deluge::is_connected_request(id)),
        }
    }

    /// One step of the login: given the state and what its request brought,
    /// the next state and what to do there, as the transition table has it.
    pub fn login_step(&self, state: Negotiation, reply: Result<RpcResponse, Error>, id: RpcId) -> (step:
        Step)
        ensures
            step@ == next_step(self.password@, state@, reply_view(reply), id@),
    {
        match state {
            Negotiation::Unknown => self.login_begin(id),
            Negotiation::Connected => complete(),
            Negotiation::CheckingConnection => match reply {
                Err(e) => fail(e),
                Ok(response) => match Deluge::is_connected(&response) {
                    Err(e) => fail(e),
                    Ok(true) => complete(),
                    Ok(false) => Step {
                        state: Negotiation::Authorizing,
                        action: Move::Send(self.authorize_request(id)),
                    },
                },
            },
            Negotiation::Authorizing => match reply {
                Err(e) => fail(e),
                Ok(response) => match Deluge::authorize(&response) {
                    Err(e) => fail(e),
                    Ok(_) => Step {
                        state: Negotiation::EnumeratingHosts,
                        action: Move::Send(Deluge::get_hosts_request(id)),
                    },
                },
            },
            Negotiation::EnumeratingHosts => match reply {
                Err(e) => fail(e),
                Ok(response) => match Deluge::get_hosts(&response) {
                    Err(e) => fail(e),
                    Ok(hosts) => {
                        if hosts.len() == 0 {
                            fail(
                                app_response(
                                    "Deluge web.get_hosts returned no host available to connect",
                                ),
                            )
                        } else {
                            let host_id = hosts[0].id.clone();
                            let request = Deluge::connect_request(host_id.as_str(), id);
                            assert(hosts_view(hosts@)[0].id == host_id@);
                            Step {
                                state: Negotiation::Connecting { host_id },
                                action: Move::Send(request),
                            }
                        }
                    },
                },
            },
            Negotiation::Connecting { host_id } => match reply {
                Err(e) => fail(e),
                Ok(response) => match Deluge::connect(&response, host_id.as_str()) {
                    Err(e) => fail(e),
                    Ok(_) => complete(),
                },
            },
        }
    }
}

// ---------------------------------------------------------------------------
// What holds of every negotiation
// ---------------------------------------------------------------------------

/// Where `web.connected` answers `true`, the login is complete at once: no
/// `auth.login`, `web.get_hosts` or `web.connect` is sent.
pub proof fn lemma_connected_short_circuits(
    password: Seq<char>,
    response: RpcResponseView,
    id: RpcIdView,
)
    requires
        response.error is None,
        response.result == JsonValue::Bool(true),
    ensures
        next_step(password, NegotiationView::CheckingConnection, Ok(response), id) == connected(),
        !(next_step(password, NegotiationView::CheckingConnection, Ok(response), id).action is Send),
{
}

/// Where `auth.login` answers `false` without an error, the envelope counts
/// the response as a success that carries `false`, the login fails with
/// `Authorization`, and nothing more is sent.
pub proof fn lemma_rejected_password_fails(
    password: Seq<char>,
    response: RpcResponseView,
    id: RpcIdView,
)
    requires
        response.error is None,
        response.result == JsonValue::Bool(false),
    ensures
        response.classify() == RpcOutcomeView::Success(JsonValue::Bool(false)),
        next_step(password, NegotiationView::Authorizing, Ok(response), id) == failed(
            ErrorView::Authorization,
        ),
{
}

/// Where the host list holds an item that is no array, the login fails and
/// `web.connect` is not sent, whatever the other items describe.
pub proof fn lemma_stray_item_aborts_login(
    password: Seq<char>,
    response: RpcResponseView,
    id: RpcIdView,
    k: int,
)
    requires
        response.error is None,
        response.result is Array,
        0 <= k < response.result->Array_0.len(),
        !(response.result->Array_0[k] is Array),
    ensures
        next_step(password, NegotiationView::EnumeratingHosts, Ok(response), id).action is Fail,
        next_step(password, NegotiationView::EnumeratingHosts, Ok(response), id).state
            == NegotiationView::Unknown,
{
    lemma_stray_item_fails(response.result->Array_0, k);
}

/// Where the host list holds an entry with fewer than four elements, the
/// login fails and `web.connect` is not sent.
pub proof fn lemma_short_entry_aborts_login(
    password: Seq<char>,
    response: RpcResponseView,
    id: RpcIdView,
    k: int,
)
    requires
        response.error is None,
        response.result is Array,
        0 <= k < response.result->Array_0.len(),
        response.result->Array_0[k] is Array,
        response.result->Array_0[k]->Array_0.len() < 4,
    ensures
        next_step(password, NegotiationView::EnumeratingHosts, Ok(response), id).action is Fail,
        next_step(password, NegotiationView::EnumeratingHosts, Ok(response), id).state
            == NegotiationView::Unknown,
{
    lemma_short_entry_fails(response.result->Array_0, k);
}

/// A request that did not get through, or whose answer cannot be read, ends
/// the attempt in every state that waits for an answer: the failure is
/// handed on as it is and nothing is sent.
pub proof fn lemma_failure_ends_attempt(
    password: Seq<char>,
    state: NegotiationView,
    e: ErrorView,
    id: RpcIdView,
)
    requires
        state != NegotiationView::Unknown,
        state != NegotiationView::Connected,
    ensures
        next_step(password, state, Err(e), id) == failed(e),
{
}

/// The requests go out in one order only: each state sends at most the
/// request of the state that follows it, and `web.connect` names the first
/// host of the list.
pub proof fn lemma_requests_in_order(
    password: Seq<char>,
    state: NegotiationView,
    reply: Result<RpcResponseView, ErrorView>,
    id: RpcIdView,
)
    ensures
        match next_step(password, state, reply, id).action {
            MoveView::Send(request) => match state {
                NegotiationView::Unknown => request == connected_request(id) && next_step(
                    password,
                    state,
                    reply,
                    id,
                ).state == NegotiationView::CheckingConnection,
                NegotiationView::CheckingConnection => request == authorize_request(password, id)
                    && next_step(password, state, reply, id).state
                    == NegotiationView::Authorizing,
                NegotiationView::Authorizing => request == hosts_request(id) && next_step(
                    password,
                    state,
                    reply,
                    id,
                ).state == NegotiationView::EnumeratingHosts,
                NegotiationView::EnumeratingHosts => {
                    &&& reply is Ok
                    &&& hosts_of(reply->Ok_0) is Ok
                    &&& hosts_of(reply->Ok_0)->Ok_0.len() > 0
                    &&& request == connect_request(hosts_of(reply->Ok_0)->Ok_0[0].id, id)
                    &&& next_step(password, state, reply, id).state
                        == (NegotiationView::Connecting {
                        host_id: hosts_of(reply->Ok_0)->Ok_0[0].id,
                    })
                },
                NegotiationView::Connecting { .. } => false,
                NegotiationView::Connected => false,
            },
            MoveView::Succeed => next_step(password, state, reply, id).state
                == NegotiationView::Connected,
            MoveView::Fail(_) => next_step(password, state, reply, id).state
                == NegotiationView::Unknown,
        },
{
}

// ---------------------------------------------------------------------------
// The exchange that carries a request
// ---------------------------------------------------------------------------

/// What an exchange brought, read as an RPC response: a failed exchange is
/// handed on, a body is read whatever the status says.
pub open spec fn rpc_reply(reply: Result<HttpResponseView, ErrorView>) -> Result<
    RpcResponseView,
    ErrorView,
> {
    match reply {
        Err(e) => Err(e),
        Ok(response) => response_of_document(parsed(response.body)),
    }
}

impl Deluge {
    /// The HTTP request that carries an RPC request: its text is posted to
    /// the endpoint as JSON.
    pub open spec fn posted(&self, request: RpcRequestView) -> HttpRequestView {
        HttpRequestView::PostJson {
            url: endpoint_text(self.protocol, self.hostname@, self.port, DELUGE_ENDPOINT@),
            body: printed(stored(request.to_json())),
        }
    }

    /// The HTTP request that carries an RPC request.
    pub fn send_rpc_request(&self, request: &RpcRequest) -> (http: HttpRequest)
        ensures
            http@ == self.posted(request@),
    {
        HttpRequest::PostJson { url: self.endpoint(), body: request.to_json_text() }
    }

    /// Reads what an exchange brought as an RPC response.
    pub fn read_rpc_response(reply: Result<HttpResponse, Error>) -> (r: Result<RpcResponse, Error>)
        ensures
            reply_view(r) == rpc_reply(exchange_view(reply)),
    {
        match reply {
            Err(e) => Err(e),
            Ok(response) => RpcResponse::from_json_text(response.body.as_str()),
        }
    }
}

// ---------------------------------------------------------------------------
// Ids
// ---------------------------------------------------------------------------

/// `std::time::SystemTime`: a reading of the system clock, carried from
/// one call to the next.
#[verifier::external_type_specification]
#[verifier::external_body]
pub struct ExSystemTime(std::time::SystemTime);

/// `std::time::SystemTimeError`: the error of a clock that stands before
/// the time it is compared with.
#[verifier::external_type_specification]
#[verifier::external_body]
pub struct ExSystemTimeError(std::time::SystemTimeError);

/// `SystemTime::now`: the reading of the system clock. Nothing is known of it.
#[verifier::external_body]
fn clock_now() -> (now: std::time::SystemTime) {
    std::time::SystemTime::now()
}

/// `SystemTime::duration_since`, from the Unix epoch: the time that has
/// passed since then, or an error where the clock stands before it.
#[verifier::external_body]
fn since_epoch(now: &std::time::SystemTime) -> (passed: Result<
    std::time::Duration,
    std::time::SystemTimeError,
>) {
    now.duration_since(std::time::UNIX_EPOCH)
}

/// `Duration::as_nanos`: the duration in nanoseconds.
#[verifier::external_body]
fn nanos_of(duration: &std::time::Duration) -> (nanos: u128) {
    duration.as_nanos()
}

/// An id for the next request: the id of the clock's reading, which no two
/// requests of one run are expected to share. The contract says what holds
/// of every reading; [`id_of_clock`] says which id each reading gives.
pub fn generate_id() -> (id: RpcId)
    ensures
        id is Number,
{
    let now = clock_now();
    let passed = match since_epoch(&now) {
        Ok(passed) => Some(nanos_of(&passed)),
        Err(_) => None,
    };
    id_of_clock(passed)
}

/// The id that a reading of the clock gives: the nanoseconds that have
/// passed since the Unix epoch, or 0 where the clock stands before it.
pub open spec fn clock_id(passed: Option<u128>) -> RpcIdView {
    match passed {
        Some(nanos) => RpcIdView::Number(nanos as nat),
        None => RpcIdView::Number(0),
    }
}

/// The id that a reading of the clock gives. `passed` is the nanoseconds
/// since the Unix epoch, or `None` where the clock stands before it.
pub fn id_of_clock(passed: Option<u128>) -> (id: RpcId)
    ensures
        id@ == clock_id(passed),
{
    match passed {
        Some(nanos) => RpcId::Number(nanos),
        None => RpcId::Number(0),
    }
}

} // verus!
