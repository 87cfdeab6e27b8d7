//! The JSON-RPC envelope: requests as they go on the wire, responses as they
//! come back, and the rule that tells a success from a protocol error.

use vstd::prelude::*;
use crate::error::{Error, ErrorView};
use crate::json::{
    find_member, json_view, lemma_merged_of_distinct, members_view, names_differ, Json, JsonValue,
    MemberValue, parsed, printed, stored, stored_members,
};
use crate::text::{decimal_digits, lemma_decimal_round_trip, unsigned_of};

verus! {

/// The revision of the protocol that a request is written in.
#[derive(Debug, Clone, Copy, PartialEq, Eq, Structural)]
pub enum JsonRpcVersion {
    /// The legacy revision, whose messages carry no version member.
    V1,
    V2,
}

impl JsonRpcVersion {
    /// The revision's number as it is written on the wire.
    pub open spec fn text(self) -> Seq<char> {
        match self {
            JsonRpcVersion::V1 => "1.0"@,
            JsonRpcVersion::V2 => "2.0"@,
        }
    }

    /// The revision's number as it is written on the wire.
    pub fn to_string(&self) -> (r: String)
        ensures
            r@ == self.text(),
    {
        match self {
            JsonRpcVersion::V1 => String::from_str("1.0"),
            JsonRpcVersion::V2 => String::from_str("2.0"),
        }
    }
}

/// The id that ties a response to its request.
#[derive(Debug)]
pub enum RpcId {
    Number(u128),
    String(String),
}

/// The mathematical value of an [`RpcId`].
pub enum RpcIdView {
    Number(nat),
    String(Seq<char>),
}

impl View for RpcId {
    type V = RpcIdView;

    open spec fn view(&self) -> RpcIdView {
        match self {
            RpcId::Number(n) => RpcIdView::Number(*n as nat),
            RpcId::String(s) => RpcIdView::String(s@),
        }
    }
}

impl RpcIdView {
    /// The id as a JSON value: a number written in decimal, or a string.
    pub open spec fn to_json(self) -> JsonValue {
        match self {
            RpcIdView::Number(n) => JsonValue::Number(decimal_digits(n)),
            RpcIdView::String(s) => JsonValue::String(s),
        }
    }
}

impl Clone for RpcId {
    fn clone(&self) -> (r: RpcId)
        ensures
            r@ == self@,
    {
        match self {
            RpcId::Number(n) => RpcId::Number(*n),
            RpcId::String(s) => RpcId::String(s.clone()),
        }
    }
}

impl RpcId {
    /// The id as a JSON document.
    pub fn to_json(&self) -> (doc: Json)
        ensures
            doc@ == self@.to_json(),
    {
        match self {
            RpcId::Number(n) => Json::number(*n),
            RpcId::String(s) => Json::string(s.as_str()),
        }
    }
}

/// The value of a text that may be absent.
pub open spec fn text_view(t: Option<String>) -> Option<Seq<char>> {
    match t {
        Some(s) => Some(s@),
        None => None,
    }
}

/// A copy of a text that may be absent.
pub fn clone_text(t: &Option<String>) -> (r: Option<String>)
    ensures
        text_view(r) == text_view(*t),
{
    match t {
        Some(s) => Some(s.clone()),
        None => None,
    }
}

// ---------------------------------------------------------------------------
// Requests
// ---------------------------------------------------------------------------

/// A request: the method to call, its parameters and the id of the exchange.
#[derive(Debug)]
pub struct RpcRequest {
    jsonrpc: Option<String>,
    method: String,
    params: Json,
    id: RpcId,
}

/// The mathematical value of an [`RpcRequest`].
pub struct RpcRequestView {
    pub jsonrpc: Option<Seq<char>>,
    pub method: Seq<char>,
    pub params: JsonValue,
    pub id: RpcIdView,
}

impl View for RpcRequest {
    type V = RpcRequestView;

    closed spec fn view(&self) -> RpcRequestView {
        RpcRequestView {
            jsonrpc: text_view(self.jsonrpc),
            method: self.method@,
            params: self.params@,
            id: self.id@,
        }
    }
}

impl RpcRequestView {
    /// The request that `RpcRequest::new` builds: the version member is
    /// present for every revision but the legacy one.
    pub open spec fn new(
        version: JsonRpcVersion,
        method: Seq<char>,
        params: JsonValue,
        id: RpcIdView,
    ) -> RpcRequestView {
        RpcRequestView {
            jsonrpc: if version == JsonRpcVersion::V1 {
                None
            } else {
                Some(version.text())
            },
            method,
            params,
            id,
        }
    }

    /// The members of the request on the wire, in their order: `jsonrpc`
    /// where the request has a version, then `method`, `params` and `id`.
    pub open spec fn members(self) -> Seq<MemberValue> {
        let version = match self.jsonrpc {
            Some(v) => seq![MemberValue { name: "jsonrpc"@, value: JsonValue::String(v) }],
            None => Seq::<MemberValue>::empty(),
        };
        version + seq![
            MemberValue { name: "method"@, value: JsonValue::String(self.method) },
            MemberValue { name: "params"@, value: self.params },
            MemberValue { name: "id"@, value: self.id.to_json() },
        ]
    }

    /// The request as a JSON value.
    pub open spec fn to_json(self) -> JsonValue {
        JsonValue::Object(self.members())
    }
}

impl Clone for RpcRequest {
    fn clone(&self) -> (r: RpcRequest)
        ensures
            r@ == self@,
    {
        RpcRequest {
            jsonrpc: clone_text(&self.jsonrpc),
            method: self.method.clone(),
            params: self.params.clone(),
            id: self.id.clone(),
        }
    }
}

impl RpcRequest {
    /// A request in the given revision of the protocol.
    pub fn new(jsonrpc: JsonRpcVersion, method: &str, parms: Json, id: RpcId) -> (r: Self)
        ensures
            r@ == RpcRequestView::new(jsonrpc, method@, parms@, id@),
    {
        let jsonrpc = match jsonrpc {
            JsonRpcVersion::V1 => None,
            _ => Some(jsonrpc.to_string()),
        };
        Self { jsonrpc, method: String::from_str(method), params: parms, id }
    }

    /// The name of the method that the request calls.
    pub fn method(&self) -> (r: &str)
        ensures
            r@ == self@.method,
    {
        self.method.as_str()
    }

    /// The parameters of the call.
    pub fn params(&self) -> (r: &Json)
        ensures
            r@ == self@.params,
    {
        &self.params
    }

    /// The id of the exchange.
    pub fn id(&self) -> (r: &RpcId)
        ensures
            r@ == self@.id,
    {
        &self.id
    }

    /// The protocol version that the request states, if it states one.
    pub fn jsonrpc(&self) -> (r: Option<String>)
        ensures
            text_view(r) == self@.jsonrpc,
    {
        clone_text(&self.jsonrpc)
    }

    /// The request as a JSON document.
    pub fn to_json(&self) -> (doc: Json)
        ensures
            doc@ == self@.to_json(),
    {
        let mut members: Vec<(String, Json)> = Vec::new();
        match &self.jsonrpc {
            Some(v) => {
                members.push((String::from_str("jsonrpc"), Json::string(v.as_str())));
            },
            None => {},
        }
        members.push((String::from_str("method"), Json::string(self.method.as_str())));
        members.push((String::from_str("params"), self.params.clone()));
        members.push((String::from_str("id"), self.id.to_json()));
        assert(members_view(members@) =~= self@.members());
        Json::object(members)
    }

    /// The request as the text that goes on the wire.
    pub fn to_json_text(&self) -> (text: String)
        ensures
            text@ == printed(stored(self@.to_json())),
    {
        self.to_json().to_text()
    }
}

// ---------------------------------------------------------------------------
// Responses
// ---------------------------------------------------------------------------

/// The error member of a response.
#[derive(Debug)]
pub struct RpcError {
    message: String,
    code: i64,
    data: Option<String>,
}

/// The mathematical value of an [`RpcError`].
pub struct RpcErrorView {
    pub message: Seq<char>,
    pub code: int,
    pub data: Option<Seq<char>>,
}

impl View for RpcError {
    type V = RpcErrorView;

    closed spec fn view(&self) -> RpcErrorView {
        RpcErrorView { message: self.message@, code: self.code as int, data: text_view(self.data) }
    }
}

impl Clone for RpcError {
    fn clone(&self) -> (r: RpcError)
        ensures
            r@ == self@,
    {
        RpcError { message: self.message.clone(), code: self.code, data: clone_text(&self.data) }
    }
}

impl RpcError {
    /// An error of the given message, code and data.
    pub fn new(message: String, code: i64, data: Option<String>) -> (r: Self)
        ensures
            r@ == (RpcErrorView { message: message@, code: code as int, data: text_view(data) }),
    {
        RpcError { message, code, data }
    }

    /// What the other side says went wrong.
    pub fn message(&self) -> (r: &str)
        ensures
            r@ == self@.message,
    {
        self.message.as_str()
    }

    /// The number of the error.
    pub fn code(&self) -> (r: i64)
        ensures
            r == self@.code,
    {
        self.code
    }

    /// What the other side adds to the message, if anything.
    pub fn data(&self) -> (r: Option<String>)
        ensures
            text_view(r) == self@.data,
    {
        clone_text(&self.data)
    }
}

/// A response: a result, and an error where the call was rejected.
#[derive(Debug)]
pub struct RpcResponse {
    jsonrpc: Option<String>,
    result: Json,
    error: Option<RpcError>,
    id: Option<RpcId>,
}

/// The mathematical value of an [`RpcResponse`].
pub struct RpcResponseView {
    pub jsonrpc: Option<Seq<char>>,
    pub result: JsonValue,
    pub error: Option<RpcErrorView>,
    pub id: Option<RpcIdView>,
}

/// The value of an error member that may be absent.
pub open spec fn error_view(e: Option<RpcError>) -> Option<RpcErrorView> {
    match e {
        Some(x) => Some(x@),
        None => None,
    }
}

/// The value of an id that may be absent.
pub open spec fn id_view(i: Option<RpcId>) -> Option<RpcIdView> {
    match i {
        Some(x) => Some(x@),
        None => None,
    }
}

impl View for RpcResponse {
    type V = RpcResponseView;

    closed spec fn view(&self) -> RpcResponseView {
        RpcResponseView {
            jsonrpc: text_view(self.jsonrpc),
            result: self.result@,
            error: error_view(self.error),
            id: id_view(self.id),
        }
    }
}

impl Clone for RpcResponse {
    fn clone(&self) -> (r: RpcResponse)
        ensures
            r@ == self@,
    {
        RpcResponse {
            jsonrpc: clone_text(&self.jsonrpc),
            result: self.result.clone(),
            error: match &self.error {
                Some(e) => Some(e.clone()),
                None => None,
            },
            id: match &self.id {
                Some(i) => Some(i.clone()),
                None => None,
            },
        }
    }
}

/// What a response amounts to.
#[derive(Debug)]
pub enum RpcOutcome {
    /// The call was carried out; the result may still say that the
    /// application refused (a `false`, for one).
    Success(Json),
    /// The call was rejected by the other side.
    ProtocolError { message: String, code: i64 },
}

/// The mathematical value of an [`RpcOutcome`].
pub enum RpcOutcomeView {
    Success(JsonValue),
    ProtocolError { message: Seq<char>, code: int },
}

impl View for RpcOutcome {
    type V = RpcOutcomeView;

    open spec fn view(&self) -> RpcOutcomeView {
        match self {
            RpcOutcome::Success(result) => RpcOutcomeView::Success(result@),
            RpcOutcome::ProtocolError { message, code } => RpcOutcomeView::ProtocolError {
                message: message@,
                code: *code as int,
            },
        }
    }
}

impl RpcResponseView {
    /// A response is a success exactly when it carries no error.
    pub open spec fn is_success(self) -> bool {
        self.error is None
    }

    /// A response with an error is a protocol error, whatever its result
    /// holds; one without is a success that carries the result, null included.
    pub open spec fn classify(self) -> RpcOutcomeView {
        match self.error {
            Some(e) => RpcOutcomeView::ProtocolError { message: e.message, code: e.code },
            None => RpcOutcomeView::Success(self.result),
        }
    }
}

/// A member that holds a text or is left out: absent and `null` both stand
/// for "left out"; anything but a string is a mismatch (`None`).
pub open spec fn optional_text(member: Option<JsonValue>) -> Option<Option<Seq<char>>> {
    match member {
        None => Some(None),
        Some(JsonValue::Null) => Some(None),
        Some(JsonValue::String(s)) => Some(Some(s)),
        Some(_) => None,
    }
}

/// A member that holds an id or is left out: a string, or a number written
/// with digits alone that fits 128 bits.
pub open spec fn optional_id(member: Option<JsonValue>) -> Option<Option<RpcIdView>> {
    match member {
        None => Some(None),
        Some(JsonValue::Null) => Some(None),
        Some(JsonValue::String(s)) => Some(Some(RpcIdView::String(s))),
        Some(JsonValue::Number(digits)) => match unsigned_of(digits, u128::MAX as nat) {
            Some(n) => Some(Some(RpcIdView::Number(n))),
            None => None,
        },
        Some(_) => None,
    }
}

/// The error that an object writes: a `message` string, an integer `code`
/// and, if it is there, a `data` string.
pub open spec fn error_of(value: JsonValue) -> Option<RpcErrorView> {
    match (value.member("message"@), value.member("code"@), optional_text(value.member("data"@))) {
        (Some(JsonValue::String(message)), Some(code), Some(data)) => match code.signed() {
            Some(c) => Some(RpcErrorView { message, code: c, data }),
            None => None,
        },
        _ => None,
    }
}

/// A member that holds an error or is left out.
pub open spec fn optional_error(member: Option<JsonValue>) -> Option<Option<RpcErrorView>> {
    match member {
        None => Some(None),
        Some(JsonValue::Null) => Some(None),
        Some(value) => match error_of(value) {
            Some(e) => Some(Some(e)),
            None => None,
        },
    }
}

/// The response that a JSON value writes: an object with a `result` member
/// and, each of them optional, `jsonrpc`, `error` and `id`. `None` where the
/// value does not have this shape.
pub open spec fn response_of(value: JsonValue) -> Option<RpcResponseView> {
    match (
        optional_text(value.member("jsonrpc"@)),
        value.member("result"@),
        optional_error(value.member("error"@)),
        optional_id(value.member("id"@)),
    ) {
        (Some(jsonrpc), Some(result), Some(error), Some(id)) => Some(
            RpcResponseView { jsonrpc, result, error, id },
        ),
        _ => None,
    }
}

/// What is reported for a body that is not JSON.
pub open spec fn not_json_message() -> Seq<char> {
    "Could not parse RpcResponse from json -> the body is not JSON"@
}

/// What is reported for a JSON body that is no response.
pub open spec fn not_response_message() -> Seq<char> {
    "Could not parse RpcResponse from json -> the body does not have the shape of a response"@
}

/// What reading a response from a body's text comes to.
pub open spec fn response_of_document(document: Option<JsonValue>) -> Result<
    RpcResponseView,
    ErrorView,
> {
    match document {
        None => Err(ErrorView::ParsingFailure(not_json_message())),
        Some(value) => match response_of(value) {
            Some(response) => Ok(response),
            None => Err(ErrorView::ParsingFailure(not_response_message())),
        },
    }
}

/// The view of a response or the failure to get one.
pub open spec fn reply_view(reply: Result<RpcResponse, Error>) -> Result<
    RpcResponseView,
    ErrorView,
> {
    match reply {
        Ok(response) => Ok(response@),
        Err(e) => Err(e@),
    }
}

fn read_optional_text(member: Option<&Json>) -> (r: Result<Option<String>, ()>)
    ensures
        match r {
            Ok(t) => optional_text(json_view(member)) == Some(text_view(t)),
            Err(_) => optional_text(json_view(member)) is None,
        },
{
    match member {
        None => Ok(None),
        Some(Json::Null) => Ok(None),
        Some(Json::String(s)) => Ok(Some(s.clone())),
        Some(_) => Err(()),
    }
}

fn read_optional_id(member: Option<&Json>) -> (r: Result<Option<RpcId>, ()>)
    ensures
        match r {
            Ok(i) => optional_id(json_view(member)) == Some(id_view(i)),
            Err(_) => optional_id(json_view(member)) is None,
        },
{
    match member {
        None => Ok(None),
        Some(Json::Null) => Ok(None),
        Some(Json::String(s)) => Ok(Some(RpcId::String(s.clone()))),
        Some(number) => match number.as_u128(u128::MAX) {
            Some(n) => Ok(Some(RpcId::Number(n))),
            None => Err(()),
        },
    }
}

fn read_error(value: &Json) -> (r: Option<RpcError>)
    ensures
        error_view(r) == error_of(value@),
{
    let message = match value.get("message") {
        Some(m) => match m.as_str() {
            Some(s) => String::from_str(s),
            None => {
                return None;
            },
        },
        None => {
            return None;
        },
    };
    let code = match value.get("code") {
        Some(c) => match c.as_i64() {
            Some(n) => n,
            None => {
                return None;
            },
        },
        None => {
            return None;
        },
    };
    match read_optional_text(value.get("data")) {
        Ok(data) => Some(RpcError { message, code, data }),
        Err(_) => None,
    }
}

fn read_optional_error(member: Option<&Json>) -> (r: Result<Option<RpcError>, ()>)
    ensures
        match r {
            Ok(e) => optional_error(json_view(member)) == Some(error_view(e)),
            Err(_) => optional_error(json_view(member)) is None,
        },
{
    match member {
        None => Ok(None),
        Some(Json::Null) => Ok(None),
        Some(value) => match read_error(value) {
            Some(e) => Ok(Some(e)),
            None => Err(()),
        },
    }
}

impl RpcResponse {
    /// A response of the given parts.
    pub fn new(
        jsonrpc: Option<String>,
        result: Json,
        error: Option<RpcError>,
        id: Option<RpcId>,
    ) -> (r: Self)
        ensures
            r@ == (RpcResponseView {
                jsonrpc: text_view(jsonrpc),
                result: result@,
                error: error_view(error),
                id: id_view(id),
            }),
    {
        RpcResponse { jsonrpc, result, error, id }
    }

    /// Reads a response from a JSON document. Fails with `ParsingFailure`
    /// exactly where the document does not have the shape of a response.
    pub fn from_json(doc: &Json) -> (r: Result<RpcResponse, Error>)
        ensures
            reply_view(r) == response_of_document(Some(doc@)),
    {
        let jsonrpc = read_optional_text(doc.get("jsonrpc"));
        let result = doc.get("result");
        let error = read_optional_error(doc.get("error"));
        let id = read_optional_id(doc.get("id"));
        match (jsonrpc, result, error, id) {
            (Ok(jsonrpc), Some(result), Ok(error), Ok(id)) => Ok(
                RpcResponse { jsonrpc, result: result.clone(), error, id },
            ),
            _ => Err(
                Error::ParsingFailure(
                    String::from_str(
                        "Could not parse RpcResponse from json -> the body does not have the shape of a response",
                    ),
                ),
            ),
        }
    }

    /// Reads a response from the text of a body. Fails with `ParsingFailure`
    /// where the text is not JSON, and where the document it writes does not
    /// have the shape of a response.
    pub fn from_json_text(text: &str) -> (r: Result<RpcResponse, Error>)
        ensures
            reply_view(r) == response_of_document(parsed(text@)),
    {
        match Json::from_text(text) {
            Some(doc) => RpcResponse::from_json(&doc),
            None => Err(
                Error::ParsingFailure(
                    String::from_str(
                        "Could not parse RpcResponse from json -> the body is not JSON",
                    ),
                ),
            ),
        }
    }

    /// Whether the response reports no error.
    pub fn is_success(&self) -> (r: bool)
        ensures
            r == self@.is_success(),
    {
        self.error.is_none()
    }

    /// Tells a success from a protocol error.
    pub fn classify(&self) -> (r: RpcOutcome)
        ensures
            r@ == self@.classify(),
            self@.error is Some ==> r@ is ProtocolError,
            self@.error is None ==> r@ == RpcOutcomeView::Success(self@.result),
    {
        match &self.error {
            Some(e) => RpcOutcome::ProtocolError { message: e.message.clone(), code: e.code },
            None => RpcOutcome::Success(self.result.clone()),
        }
    }

    /// The protocol version that the response states, if it states one.
    pub fn jsonrpc(&self) -> (r: Option<String>)
        ensures
            text_view(r) == self@.jsonrpc,
    {
        clone_text(&self.jsonrpc)
    }

    /// The result, which is `null` where the call has none.
    pub fn result(&self) -> (r: &Json)
        ensures
            r@ == self@.result,
    {
        &self.result
    }

    /// The error, where the call was rejected.
    pub fn error(&self) -> (r: Option<RpcError>)
        ensures
            error_view(r) == self@.error,
    {
        match &self.error {
            Some(e) => Some(e.clone()),
            None => None,
        }
    }

    /// The id of the exchange, if the response states one.
    pub fn id(&self) -> (r: Option<RpcId>)
        ensures
            id_view(r) == self@.id,
    {
        match &self.id {
            Some(i) => Some(i.clone()),
            None => None,
        }
    }
}

// ---------------------------------------------------------------------------
// What holds of every message
// ---------------------------------------------------------------------------

/// An id reads back from the value that writes it as the variant that was
/// sent: a number as that number, a string as that string.
pub proof fn lemma_id_round_trip(id: RpcIdView)
    requires
        id is Number ==> id->Number_0 <= u128::MAX,
    ensures
        optional_id(Some(id.to_json())) == Some(Some(id)),
{
    if id is Number {
        lemma_decimal_round_trip(id->Number_0);
    }
}

/// The member that a name finds in a run of members: the first of that name.
proof fn lemma_find_first(members: Seq<MemberValue>, key: Seq<char>, k: int)
    requires
        0 <= k <= members.len(),
        forall|i: int| 0 <= i < k ==> (#[trigger] members[i]).name != key,
    ensures
        k < members.len() && members[k].name == key ==> find_member(members, key) == Some(
            members[k].value,
        ),
        k == members.len() ==> find_member(members, key) is None,
    decreases k,
{
    if k > 0 {
        assert(members[0].name != key);
        let rest = members.skip(1);
        assert forall|i: int| 0 <= i < k - 1 implies (#[trigger] rest[i]).name != key by {
            assert(rest[i] == members[i + 1]);
        }
        lemma_find_first(rest, key, k - 1);
        if k < members.len() {
            assert(rest[k - 1] == members[k]);
        }
    }
}

/// The names of the members of a request differ from one another.
proof fn lemma_member_names_differ()
    ensures
        "jsonrpc"@ != "method"@,
        "jsonrpc"@ != "params"@,
        "jsonrpc"@ != "id"@,
        "method"@ != "params"@,
        "method"@ != "id"@,
        "params"@ != "id"@,
{
    reveal_strlit("jsonrpc");
    reveal_strlit("method");
    reveal_strlit("params");
    reveal_strlit("id");
    assert("jsonrpc"@.len() == 7);
    assert("method"@.len() == 6);
    assert("params"@.len() == 6);
    assert("id"@.len() == 2);
    assert("method"@[0] == 'm');
    assert("params"@[0] == 'p');
}

/// On the wire a request has a `jsonrpc` member exactly where it is not
/// written in the legacy revision, and the member states the revision.
pub proof fn lemma_version_member(
    version: JsonRpcVersion,
    method: Seq<char>,
    params: JsonValue,
    id: RpcIdView,
)
    ensures
        RpcRequestView::new(version, method, params, id).to_json().member("jsonrpc"@) == (
        if version == JsonRpcVersion::V1 {
            None
        } else {
            Some(JsonValue::String(version.text()))
        }),
{
    lemma_member_names_differ();
    let members = RpcRequestView::new(version, method, params, id).members();
    if version == JsonRpcVersion::V1 {
        assert(members.len() == 3);
        lemma_find_first(members, "jsonrpc"@, 3);
    } else {
        lemma_find_first(members, "jsonrpc"@, 0);
    }
}

/// A request keeps on the wire what it was built from: the method, the
/// parameters and the id are the members `method`, `params` and `id`.
pub proof fn lemma_request_members(
    version: JsonRpcVersion,
    method: Seq<char>,
    params: JsonValue,
    id: RpcIdView,
)
    ensures
        ({
            let wire = RpcRequestView::new(version, method, params, id).to_json();
            &&& wire.member("method"@) == Some(JsonValue::String(method))
            &&& wire.member("params"@) == Some(params)
            &&& wire.member("id"@) == Some(id.to_json())
        }),
{
    lemma_member_names_differ();
    let members = RpcRequestView::new(version, method, params, id).members();
    let first: int = if version == JsonRpcVersion::V1 {
        0
    } else {
        1
    };
    assert(members.len() == first + 3);
    assert(members[first].name == "method"@);
    assert(members[first + 1].name == "params"@);
    assert(members[first + 2].name == "id"@);
    lemma_find_first(members, "method"@, first);
    lemma_find_first(members, "params"@, first + 1);
    lemma_find_first(members, "id"@, first + 2);
}

/// What is stored of a request for printing has the members of the request
/// in their order, none merged with another: `jsonrpc` exactly where the
/// request is not written in the legacy revision, then `method`, `params`
/// and `id`.
pub proof fn lemma_request_on_the_wire(
    version: JsonRpcVersion,
    method: Seq<char>,
    params: JsonValue,
    id: RpcIdView,
)
    ensures
        ({
            let request = RpcRequestView::new(version, method, params, id);
            let wire = stored(request.to_json());
            &&& wire == JsonValue::Object(stored_members(request.members()))
            &&& wire.member("jsonrpc"@) == (if version == JsonRpcVersion::V1 {
                None
            } else {
                Some(JsonValue::String(version.text()))
            })
            &&& wire.member("method"@) == Some(JsonValue::String(method))
            &&& wire.member("params"@) == Some(stored(params))
            &&& wire.member("id"@) == Some(stored(id.to_json()))
        }),
{
    lemma_member_names_differ();
    let request = RpcRequestView::new(version, method, params, id);
    let members = stored_members(request.members());
    let first: int = if version == JsonRpcVersion::V1 {
        0
    } else {
        1
    };
    assert(members.len() == first + 3);
    if first == 1 {
        assert(members[0].name == "jsonrpc"@);
    }
    assert(members[first].name == "method"@);
    assert(members[first + 1].name == "params"@);
    assert(members[first + 2].name == "id"@);
    assert(names_differ(members));
    lemma_merged_of_distinct(members);
    if first == 1 {
        lemma_find_first(members, "jsonrpc"@, 0);
    } else {
        lemma_find_first(members, "jsonrpc"@, 3);
    }
    lemma_find_first(members, "method"@, first);
    lemma_find_first(members, "params"@, first + 1);
    lemma_find_first(members, "id"@, first + 2);
}

} // verus!
