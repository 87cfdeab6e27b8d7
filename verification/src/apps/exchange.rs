//! One interface over both backends: an operation is a run of HTTP
//! exchanges, and the backend says after each one what comes next. The
//! caller sends what is asked for and comes back with what it brought.

use vstd::prelude::*;
use crate::apps::{
    endpoint_text, exchange_view, Backend, HttpRequest, HttpRequestView, HttpResponse,
    HttpResponseView,
};
use crate::apps::deluge::{
    connected_request, next_step, rpc_reply, set_port_of, set_port_request, Deluge, Move,
    MoveView, Negotiation, NegotiationView, Step, StepView,
};
use crate::apps::qbittorrent::{
    current_port_of, fetched, login_fields, login_of, next_update, preference_fields,
    PortUpdate, Progress, ProgressView, Qbittorrent, QB_GET_PREFERENCES_ENDPOINT,
    QB_LOGIN_ENDPOINT, QB_SET_PREFERENCES_ENDPOINT,
};
use crate::error::{Error, ErrorView};
use crate::json::{parsed, JsonValue};
use crate::rpc::{RpcId, RpcIdView};
use crate::text::decimal_digits;

verus! {

/// The exchange under way: which answer the backend waits for.
#[derive(Debug)]
pub enum Exchange {
    /// qBittorrent: the login.
    QbittorrentLogin,
    /// qBittorrent: a step of a port update.
    QbittorrentPort(PortUpdate),
    /// Deluge: a step of the login negotiation.
    DelugeLogin(Negotiation),
    /// Deluge: the port update.
    DelugePort,
}

/// The mathematical value of an [`Exchange`].
pub enum ExchangeView {
    QbittorrentLogin,
    QbittorrentPort(PortUpdate),
    DelugeLogin(NegotiationView),
    DelugePort,
}

impl View for Exchange {
    type V = ExchangeView;

    open spec fn view(&self) -> ExchangeView {
        match self {
            Exchange::QbittorrentLogin => ExchangeView::QbittorrentLogin,
            Exchange::QbittorrentPort(state) => ExchangeView::QbittorrentPort(*state),
            Exchange::DelugeLogin(state) => ExchangeView::DelugeLogin(state@),
            Exchange::DelugePort => ExchangeView::DelugePort,
        }
    }
}

/// What the caller is to do next.
#[derive(Debug)]
pub enum Advance {
    /// Send the request and come back, with the exchange, with what it
    /// brought.
    Send(Exchange, HttpRequest),
    /// The operation is over.
    Done(Result<(), Error>),
}

/// The mathematical value of an [`Advance`].
pub enum AdvanceView {
    Send(ExchangeView, HttpRequestView),
    Done(Result<(), ErrorView>),
}

impl View for Advance {
    type V = AdvanceView;

    open spec fn view(&self) -> AdvanceView {
        match self {
            Advance::Send(exchange, request) => AdvanceView::Send(exchange@, request@),
            Advance::Done(Ok(_)) => AdvanceView::Done(Ok(())),
            Advance::Done(Err(e)) => AdvanceView::Done(Err(e@)),
        }
    }
}

/// What is reported where an exchange is handed to a backend that did not
/// start it.
pub open spec fn foreign_exchange() -> ErrorView {
    ErrorView::AppResponse("the exchange under way belongs to another backend"@)
}

/// A step of the Deluge negotiation as the next thing to do.
pub open spec fn of_step(deluge: &Deluge, step: StepView) -> AdvanceView {
    match step.action {
        MoveView::Send(request) => AdvanceView::Send(
            ExchangeView::DelugeLogin(step.state),
            deluge.posted(request),
        ),
        MoveView::Succeed => AdvanceView::Done(Ok(())),
        MoveView::Fail(e) => AdvanceView::Done(Err(e)),
    }
}

/// A step of the qBittorrent port update as the next thing to do.
pub open spec fn of_progress(progress: ProgressView) -> AdvanceView {
    match progress {
        ProgressView::Send(state, request) => AdvanceView::Send(
            ExchangeView::QbittorrentPort(state),
            request,
        ),
        ProgressView::Done(r) => AdvanceView::Done(r),
    }
}

impl Backend {
    /// How a login begins: qBittorrent gets the login form, Deluge is asked
    /// whether it is connected.
    pub open spec fn login_start(&self, id: RpcIdView) -> AdvanceView {
        match self {
            Backend::QBittorrent(q) => AdvanceView::Send(
                ExchangeView::QbittorrentLogin,
                HttpRequestView::PostForm {
                    url: endpoint_text(q.protocol, q.hostname@, q.port, QB_LOGIN_ENDPOINT@),
                    fields: login_fields(q.username@, q.password@),
                },
            ),
            Backend::Deluge(d) => AdvanceView::Send(
                ExchangeView::DelugeLogin(NegotiationView::CheckingConnection),
                d.posted(connected_request(id)),
            ),
        }
    }

    /// How a port update begins: qBittorrent gets the new preferences,
    /// Deluge the new configuration.
    pub open spec fn set_port_start(&self, port: u16, id: RpcIdView) -> AdvanceView {
        match self {
            Backend::QBittorrent(q) => AdvanceView::Send(
                ExchangeView::QbittorrentPort(PortUpdate::Applying(port)),
                HttpRequestView::PostForm {
                    url: endpoint_text(
                        q.protocol,
                        q.hostname@,
                        q.port,
                        QB_SET_PREFERENCES_ENDPOINT@,
                    ),
                    fields: preference_fields(port),
                },
            ),
            Backend::Deluge(d) => AdvanceView::Send(
                ExchangeView::DelugePort,
                d.posted(set_port_request(port, id)),
            ),
        }
    }

    /// How an operation goes on after an exchange: each backend follows its
    /// own transition table. An exchange that the backend did not start ends
    /// the operation with a failure.
    pub open spec fn resumed(
        &self,
        exchange: ExchangeView,
        reply: Result<HttpResponseView, ErrorView>,
        id: RpcIdView,
    ) -> AdvanceView {
        match (self, exchange) {
            (Backend::QBittorrent(_), ExchangeView::QbittorrentLogin) => AdvanceView::Done(
                login_of(reply),
            ),
            (Backend::QBittorrent(q), ExchangeView::QbittorrentPort(state)) => of_progress(
                next_update(
                    endpoint_text(q.protocol, q.hostname@, q.port, QB_GET_PREFERENCES_ENDPOINT@),
                    state,
                    fetched(reply),
                ),
            ),
            (Backend::Deluge(d), ExchangeView::DelugeLogin(state)) => of_step(
                d,
                next_step(d.password@, state, rpc_reply(reply), id),
            ),
            (Backend::Deluge(_), ExchangeView::DelugePort) => AdvanceView::Done(
                match rpc_reply(reply) {
                    Err(e) => Err(e),
                    Ok(response) => set_port_of(response),
                },
            ),
            _ => AdvanceView::Done(Err(foreign_exchange())),
        }
    }

    fn from_step(deluge: &Deluge, step: Step) -> (advance: Advance)
        ensures
            advance@ == of_step(deluge, step@),
    {
        match step.action {
            Move::Send(request) => Advance::Send(
                Exchange::DelugeLogin(step.state),
                deluge.send_rpc_request(&request),
            ),
            Move::Succeed => Advance::Done(Ok(())),
            Move::Fail(e) => Advance::Done(Err(e)),
        }
    }

    fn from_progress(progress: Progress) -> (advance: Advance)
        ensures
            advance@ == of_progress(progress@),
    {
        match progress {
            Progress::Send(state, request) => Advance::Send(
                Exchange::QbittorrentPort(state),
                request,
            ),
            Progress::Done(r) => Advance::Done(r),
        }
    }

    /// Begins a login. `id` is the id of the request, where the backend
    /// speaks RPC.
    pub fn login(&self, id: RpcId) -> (advance: Advance)
        ensures
            advance@ == self.login_start(id@),
    {
        match self {
            Backend::QBittorrent(q) => Advance::Send(Exchange::QbittorrentLogin, q.login_request()),
            Backend::Deluge(d) => Backend::from_step(d, d.login_begin(id)),
        }
    }

    /// Begins a port update. `id` is the id of the request, where the
    /// backend speaks RPC.
    pub fn set_port(&self, port: u16, id: RpcId) -> (advance: Advance)
        ensures
            advance@ == self.set_port_start(port, id@),
    {
        match self {
            Backend::QBittorrent(q) => Backend::from_progress(q.set_port_begin(port)),
            Backend::Deluge(d) => {
                let request = Deluge::set_port_request(port, id);
                Advance::Send(Exchange::DelugePort, d.send_rpc_request(&request))
            },
        }
    }

    /// Goes on with an operation: `exchange` says which answer was waited
    /// for, `reply` is what came, `id` the id of the request that may follow.
    pub fn resume(&self, exchange: Exchange, reply: Result<HttpResponse, Error>, id: RpcId) -> (advance:
        Advance)
        ensures
            advance@ == self.resumed(exchange@, exchange_view(reply), id@),
    {
        match self {
            Backend::QBittorrent(q) => match exchange {
                Exchange::QbittorrentLogin => {
                    let r = Qbittorrent::login(reply);
                    match r {
                        Ok(_) => Advance::Done(Ok(())),
                        Err(e) => Advance::Done(Err(e)),
                    }
                },
                Exchange::QbittorrentPort(state) => Backend::from_progress(
                    q.set_port(state, reply),
                ),
                _ => Advance::Done(Err(Backend::foreign())),
            },
            Backend::Deluge(d) => match exchange {
                Exchange::DelugeLogin(state) => {
                    let reply = Deluge::read_rpc_response(reply);
                    Backend::from_step(d, d.login_step(state, reply, id))
                },
                Exchange::DelugePort => match Deluge::read_rpc_response(reply) {
                    Err(e) => Advance::Done(Err(e)),
                    Ok(response) => match Deluge::set_port(&response) {
                        Ok(_) => Advance::Done(Ok(())),
                        Err(e) => Advance::Done(Err(e)),
                    },
                },
                _ => Advance::Done(Err(Backend::foreign())),
            },
        }
    }

    fn foreign() -> (e: Error)
        ensures
            e@ == foreign_exchange(),
    {
        Error::AppResponse(String::from_str("the exchange under way belongs to another backend"))
    }
}

// ---------------------------------------------------------------------------
// What holds of every operation
// ---------------------------------------------------------------------------

/// A port update of Deluge is over after one exchange, and it succeeds
/// exactly where the answer is a response without an error: the port is not
/// read back.
pub proof fn lemma_deluge_port_is_not_read_back(
    backend: &Backend,
    reply: Result<HttpResponseView, ErrorView>,
    id: RpcIdView,
)
    requires
        backend is Deluge,
    ensures
        backend.resumed(ExchangeView::DelugePort, reply, id) is Done,
        backend.resumed(ExchangeView::DelugePort, reply, id) == AdvanceView::Done(Ok(()))
            <==> rpc_reply(reply) is Ok && rpc_reply(reply)->Ok_0.error is None,
{
}

/// A port update of qBittorrent succeeds only after the preferences were
/// read back and state the port that was set.
pub proof fn lemma_qbittorrent_port_is_read_back(
    backend: &Backend,
    state: PortUpdate,
    reply: Result<HttpResponseView, ErrorView>,
    id: RpcIdView,
)
    requires
        backend is QBittorrent,
        backend.resumed(ExchangeView::QbittorrentPort(state), reply, id) == AdvanceView::Done(
            Ok(()),
        ),
    ensures
        state is Verifying,
        reply is Ok,
        current_port_of(reply->Ok_0.status, parsed(reply->Ok_0.body)) == Ok::<
            Seq<char>,
            ErrorView,
        >(decimal_digits(state->Verifying_0 as nat)),
{
}

/// A login of Deluge is over at once where `web.connected` answers `true`,
/// and it fails without another request where `auth.login` answers `false`.
pub proof fn lemma_deluge_login_ends_early(
    backend: &Backend,
    reply: Result<HttpResponseView, ErrorView>,
    id: RpcIdView,
)
    requires
        backend is Deluge,
        rpc_reply(reply) is Ok,
        rpc_reply(reply)->Ok_0.error is None,
    ensures
        rpc_reply(reply)->Ok_0.result == JsonValue::Bool(true) ==> backend.resumed(
            ExchangeView::DelugeLogin(NegotiationView::CheckingConnection),
            reply,
            id,
        ) == AdvanceView::Done(Ok(())),
        rpc_reply(reply)->Ok_0.result == JsonValue::Bool(false) ==> backend.resumed(
            ExchangeView::DelugeLogin(NegotiationView::Authorizing),
            reply,
            id,
        ) == AdvanceView::Done(Err(ErrorView::Authorization)),
{
}

} // verus!
