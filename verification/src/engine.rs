use crate::body::{body_rewritten, lemma_text_rewritten_without_origin};
use crate::coder::{name_view, Encoding};
use crate::error::{http_error, Failure, ForwardError, HttpError, HttpErrorView};
use crate::forward::{lookup, Forward, RouteView};
use crate::message::{
    body_is_text, fused, head_rewritten, RequestHead, RequestHeadView, ResponseHead,
    ResponseHeadView, NOT_MODIFIED,
};
use crate::text::{occurs_in, same_text};
use vstd::prelude::*;
use vstd::utf8::{decode_utf8, valid_utf8};

verus! {

/// How far the forwarding of one request has come: what the proxy waits for.
#[derive(Debug)]
pub enum Stage {
    /// For the address of the origin of the route at place `route`.
    Resolving { route: usize, request: RequestHead },
    /// For a byte stream to that origin.
    Connecting { route: usize },
    /// For the TLS handshake on that stream.
    Securing,
    /// For the origin's response.
    Exchanging,
    /// For the whole body of the response whose rewritten head is `head`.
    Reading { head: ResponseHead },
    /// For nothing: the request is answered.
    Done,
}

/// What happened outside since the last step.
#[derive(Debug)]
pub enum Event {
    /// The address was found.
    Resolved,
    /// The byte stream stands.
    Connected,
    /// The TLS handshake is made.
    Secured,
    /// The origin answered with this head.
    Response(ResponseHead),
    /// The body was read to its end.
    Body(Vec<u8>),
    /// What was asked for could not be done.
    Failed(ForwardError),
}

/// What becomes of the body of a response.
#[derive(Debug)]
pub enum Body {
    /// It is passed on as it comes.
    Untouched,
    /// It is decoded and encoded again as it streams through.
    Recoded(Encoding),
    /// These bytes take its place.
    Replaced(Vec<u8>),
}

/// What is to be done outside next.
#[derive(Debug)]
pub enum Action {
    /// Find the address of `host` and `port`.
    Resolve { host: String, port: u16 },
    /// Open a byte stream to the origin `host` and `port`: through the relay
    /// at `relay`, which is given the host by name, or, without a relay, to
    /// the address that was found. `request` is the request for the origin.
    Connect { relay: Option<String>, host: String, port: u16, request: RequestHead },
    /// Make the TLS handshake on the stream, as a client of `host`.
    Secure { host: String },
    /// Send the request and read the head of the response.
    Exchange,
    /// Read the body to its end.
    Read,
    /// Answer the client with `head` and `body`. `warning` is for the log.
    Reply { head: ResponseHead, body: Body, warning: Option<ForwardError> },
    /// Answer the client with this failure.
    Fail(HttpError),
}

/// A `Stage` as a mathematical value.
pub enum StageView {
    Resolving { route: int, request: RequestHeadView },
    Connecting { route: int },
    Securing,
    Exchanging,
    Reading { head: ResponseHeadView },
    Done,
}

/// An `Event` as a mathematical value.
pub enum EventView {
    Resolved,
    Connected,
    Secured,
    Response(ResponseHeadView),
    Body(Seq<u8>),
    Failed(Failure),
}

/// A `Body` as a mathematical value.
pub enum BodyView {
    Untouched,
    Recoded(Encoding),
    Replaced(Seq<u8>),
}

/// An `Action` as a mathematical value.
pub enum ActionView {
    Resolve { host: Seq<char>, port: u16 },
    Connect { relay: Option<Seq<char>>, host: Seq<char>, port: u16, request: RequestHeadView },
    Secure { host: Seq<char> },
    Exchange,
    Read,
    Reply { head: ResponseHeadView, body: BodyView, warning: Option<Failure> },
    Fail(HttpErrorView),
}

impl View for Stage {
    type V = StageView;

    open spec fn view(&self) -> StageView {
        match self {
            Stage::Resolving { route, request } => StageView::Resolving {
                route: *route as int,
                request: request@,
            },
            Stage::Connecting { route } => StageView::Connecting { route: *route as int },
            Stage::Securing => StageView::Securing,
            Stage::Exchanging => StageView::Exchanging,
            Stage::Reading { head } => StageView::Reading { head: head@ },
            Stage::Done => StageView::Done,
        }
    }
}

impl View for Event {
    type V = EventView;

    open spec fn view(&self) -> EventView {
        match self {
            Event::Resolved => EventView::Resolved,
            Event::Connected => EventView::Connected,
            Event::Secured => EventView::Secured,
            Event::Response(head) => EventView::Response(head@),
            Event::Body(bytes) => EventView::Body(bytes@),
            Event::Failed(e) => EventView::Failed(e@),
        }
    }
}

impl View for Body {
    type V = BodyView;

    open spec fn view(&self) -> BodyView {
        match self {
            Body::Untouched => BodyView::Untouched,
            Body::Recoded(e) => BodyView::Recoded(*e),
            Body::Replaced(bytes) => BodyView::Replaced(bytes@),
        }
    }
}

/// The warning as a mathematical value.
pub open spec fn warning_view(warning: Option<ForwardError>) -> Option<Failure> {
    match warning {
        Some(e) => Some(e@),
        None => None,
    }
}

impl View for Action {
    type V = ActionView;

    open spec fn view(&self) -> ActionView {
        match self {
            Action::Resolve { host, port } => ActionView::Resolve { host: host@, port: *port },
            Action::Connect { relay, host, port, request } => ActionView::Connect {
                relay: relay.deep_view(),
                host: host@,
                port: *port,
                request: request@,
            },
            Action::Secure { host } => ActionView::Secure { host: host@ },
            Action::Exchange => ActionView::Exchange,
            Action::Read => ActionView::Read,
            Action::Reply { head, body, warning } => ActionView::Reply {
                head: head@,
                body: body@,
                warning: warning_view(*warning),
            },
            Action::Fail(e) => ActionView::Fail(e@),
        }
    }
}

/// The request ends with the failure `e` told to the client.
pub open spec fn failed(e: Failure) -> (StageView, ActionView) {
    (StageView::Done, ActionView::Fail(e.response()))
}

/// The request ends because an event came that the stage does not wait for.
pub open spec fn confused() -> (StageView, ActionView) {
    (StageView::Done, ActionView::Fail(HttpErrorView { status: 500, message: "unexpected event"@ }))
}

/// The first step for a request whose URL names `domain`: without a domain,
/// or with one that the table does not hold, the request fails at once; else
/// the address of the origin is asked for.
pub open spec fn started(
    routes: Seq<RouteView>,
    domain: Option<Seq<char>>,
    request: RequestHeadView,
) -> (StageView, ActionView) {
    match domain {
        None => failed(Failure::MissingDomain),
        Some(name) => match lookup(routes, name) {
            None => failed(Failure::UnknownDomain),
            Some(i) => (
                StageView::Resolving { route: i, request },
                ActionView::Resolve { host: routes[i].target.host, port: routes[i].target.port },
            ),
        },
    }
}

/// The step after the origin's address was found: a byte stream is asked
/// for, and the request is pointed at the origin.
pub open spec fn resolved_step(
    routes: Seq<RouteView>,
    relay: Option<Seq<char>>,
    route: int,
    request: RequestHeadView,
) -> (StageView, ActionView) {
    if 0 <= route < routes.len() {
        let target = routes[route].target;
        (
            StageView::Connecting { route },
            ActionView::Connect {
                relay,
                host: target.host,
                port: target.port,
                request: fused(target, request),
            },
        )
    } else {
        failed(Failure::UnknownDomain)
    }
}

/// The step after the byte stream stands: `https` asks for the handshake,
/// `http` for the exchange, and any other scheme fails.
pub open spec fn connected_step(routes: Seq<RouteView>, route: int) -> (StageView, ActionView) {
    if 0 <= route < routes.len() {
        let target = routes[route].target;
        if target.scheme == "https"@ {
            (StageView::Securing, ActionView::Secure { host: target.host })
        } else if target.scheme == "http"@ {
            (StageView::Exchanging, ActionView::Exchange)
        } else {
            failed(Failure::UnsupportedScheme(target.scheme))
        }
    } else {
        failed(Failure::UnknownDomain)
    }
}

/// The step after the origin answered. The head is rewritten in any case. A
/// response that is not modified goes out with its body untouched; so does
/// one whose encoding the proxy does not handle, with a warning. Else a body
/// of text is asked for whole, and any other body is transcoded as it
/// streams, if it is encoded at all.
pub open spec fn answered(routes: Seq<RouteView>, head: ResponseHeadView) -> (
    StageView,
    ActionView,
) {
    let new = head_rewritten(routes, head);
    if head.status == NOT_MODIFIED {
        (StageView::Done, ActionView::Reply { head: new, body: BodyView::Untouched, warning: None })
    } else {
        match head.content_encoding {
            Some(name) => match Encoding::named(name) {
                None => (
                    StageView::Done,
                    ActionView::Reply {
                        head: new,
                        body: BodyView::Untouched,
                        warning: Some(Failure::UnhandledEncoding(name)),
                    },
                ),
                Some(encoding) => if body_is_text(head.content_type) {
                    (StageView::Reading { head: new }, ActionView::Read)
                } else {
                    (
                        StageView::Done,
                        ActionView::Reply {
                            head: new,
                            body: BodyView::Recoded(encoding),
                            warning: None,
                        },
                    )
                },
            },
            None => if body_is_text(head.content_type) {
                (StageView::Reading { head: new }, ActionView::Read)
            } else {
                (
                    StageView::Done,
                    ActionView::Reply { head: new, body: BodyView::Untouched, warning: None },
                )
            },
        }
    }
}

/// The step after the body was read: the rewritten body takes its place, or,
/// where it cannot be rewritten, the body as it was read, with a warning.
pub open spec fn finished(routes: Seq<RouteView>, head: ResponseHeadView, body: Seq<u8>) -> (
    StageView,
    ActionView,
) {
    match body_rewritten(routes, head.content_encoding, body) {
        Ok(new) => (
            StageView::Done,
            ActionView::Reply { head, body: BodyView::Replaced(new), warning: None },
        ),
        Err(e) => (
            StageView::Done,
            ActionView::Reply { head, body: BodyView::Replaced(body), warning: Some(e) },
        ),
    }
}

/// The step that `event` leads to from `stage`. A failure while the address
/// is looked for is an invalid target; a failure of the body's reading
/// leaves the body as it is, with a warning; any other failure is told to
/// the client as it is.
pub open spec fn next(
    routes: Seq<RouteView>,
    relay: Option<Seq<char>>,
    stage: StageView,
    event: EventView,
) -> (StageView, ActionView) {
    match (stage, event) {
        (StageView::Resolving { route, request }, EventView::Resolved) => resolved_step(
            routes,
            relay,
            route,
            request,
        ),
        (StageView::Resolving { .. }, EventView::Failed(_)) => failed(Failure::InvalidTarget),
        (StageView::Connecting { route }, EventView::Connected) => connected_step(routes, route),
        (StageView::Connecting { .. }, EventView::Failed(e)) => failed(e),
        (StageView::Securing, EventView::Secured) => (StageView::Exchanging, ActionView::Exchange),
        (StageView::Securing, EventView::Failed(e)) => failed(e),
        (StageView::Exchanging, EventView::Response(head)) => answered(routes, head),
        (StageView::Exchanging, EventView::Failed(e)) => failed(e),
        (StageView::Reading { head }, EventView::Body(body)) => finished(routes, head, body),
        (StageView::Reading { head }, EventView::Failed(_)) => (
            StageView::Done,
            ActionView::Reply {
                head,
                body: BodyView::Untouched,
                warning: Some(Failure::BodyDecodeError),
            },
        ),
        _ => confused(),
    }
}

/// A response that is not modified goes out at once: its head rewritten, its
/// body untouched, and nothing decoded or encoded.
pub proof fn lemma_not_modified_skips_body(
    routes: Seq<RouteView>,
    relay: Option<Seq<char>>,
    head: ResponseHeadView,
)
    requires
        head.status == NOT_MODIFIED,
    ensures
        next(routes, relay, StageView::Exchanging, EventView::Response(head)) == (
            StageView::Done,
            ActionView::Reply {
                head: head_rewritten(routes, head),
                body: BodyView::Untouched,
                warning: None,
            },
        ),
{
}

/// A body of text that is not encoded and in which no origin shows goes out
/// as it was read, without a warning.
pub proof fn lemma_body_without_origin_is_kept(
    routes: Seq<RouteView>,
    relay: Option<Seq<char>>,
    head: ResponseHeadView,
    body: Seq<u8>,
)
    requires
        head.content_encoding is None,
        valid_utf8(body),
        forall|i: int|
            0 <= i < routes.len() ==> !occurs_in(
                (#[trigger] routes[i]).target.host_with_port(),
                decode_utf8(body),
            ),
    ensures
        next(routes, relay, StageView::Reading { head }, EventView::Body(body)) == (
            StageView::Done,
            ActionView::Reply { head, body: BodyView::Replaced(body), warning: None },
        ),
{
    lemma_text_rewritten_without_origin(routes, body);
}

/// A request for a domain that the table does not hold is answered with
/// status 500 at once, and nothing is ever asked of the outside for it.
pub proof fn lemma_unknown_domain_fails(
    routes: Seq<RouteView>,
    relay: Option<Seq<char>>,
    domain: Seq<char>,
    request: RequestHeadView,
    event: EventView,
)
    requires
        forall|i: int| 0 <= i < routes.len() ==> (#[trigger] routes[i]).domain != domain,
    ensures
        started(routes, Some(domain), request) == (
            StageView::Done,
            ActionView::Fail(
                HttpErrorView { status: 500, message: "invalid domain, check config file"@ },
            ),
        ),
        next(routes, relay, started(routes, Some(domain), request).0, event) == confused(),
{
    crate::forward::lemma_lookup_from(routes, domain, 0);
}

/// Whether a step is the one that the model gives.
pub open spec fn steps_as(r: (Stage, Action), model: (StageView, ActionView)) -> bool {
    r.0@ == model.0 && r.1@ == model.1
}

/// The end of a request with the failure `e` told to the client.
fn fail(e: ForwardError) -> (r: (Stage, Action))
    ensures
        steps_as(r, failed(e@)),
{
    (Stage::Done, Action::Fail(e.response()))
}

impl Forward {
    /// Takes up a request whose URL names `domain`.
    pub fn forward(&self, domain: Option<&str>, request: RequestHead) -> (r: (Stage, Action))
        ensures
            steps_as(r, started(self@, name_view(domain), request@)),
    {
        match domain {
            None => fail(ForwardError::MissingDomain),
            Some(name) => match self.find(name) {
                None => fail(ForwardError::UnknownDomain),
                Some(i) => match self.target(i) {
                    Some(target) => {
                        let host = target.host().to_owned();
                        let port = target.port();
                        (Stage::Resolving { route: i, request }, Action::Resolve { host, port })
                    },
                    None => fail(ForwardError::UnknownDomain),
                },
            },
        }
    }

    /// Goes on with a request after `event`.
    pub fn request(&self, stage: Stage, event: Event) -> (r: (Stage, Action))
        ensures
            steps_as(r, next(self@, self.relay(), stage@, event@)),
    {
        match (stage, event) {
            (Stage::Resolving { route, request }, Event::Resolved) => self.connect(route, request),
            (Stage::Resolving { .. }, Event::Failed(_)) => fail(ForwardError::InvalidTarget),
            (Stage::Connecting { route }, Event::Connected) => self.secure(route),
            (Stage::Connecting { .. }, Event::Failed(e)) => fail(e),
            (Stage::Securing, Event::Secured) => (Stage::Exchanging, Action::Exchange),
            (Stage::Securing, Event::Failed(e)) => fail(e),
            (Stage::Exchanging, Event::Response(head)) => self.answer(head),
            (Stage::Exchanging, Event::Failed(e)) => fail(e),
            (Stage::Reading { head }, Event::Body(body)) => self.finish(head, body),
            (Stage::Reading { head }, Event::Failed(_)) => (
                Stage::Done,
                Action::Reply {
                    head,
                    body: Body::Untouched,
                    warning: Some(ForwardError::BodyDecodeError),
                },
            ),
            _ => (Stage::Done, Action::Fail(http_error("unexpected event".to_owned()))),
        }
    }

    /// The step after the address of the origin at place `route` was found.
    pub fn connect(&self, route: usize, request: RequestHead) -> (r: (Stage, Action))
        ensures
            steps_as(r, resolved_step(self@, self.relay(), route as int, request@)),
    {
        match self.target(route) {
            Some(target) => {
                let relay = match self.socks5_server() {
                    Some(server) => Some(server.to_owned()),
                    None => None,
                };
                (
                    Stage::Connecting { route },
                    Action::Connect {
                        relay,
                        host: target.host().to_owned(),
                        port: target.port(),
                        request: target.fuse_request(request),
                    },
                )
            },
            None => fail(ForwardError::UnknownDomain),
        }
    }

    /// The step after the byte stream to the origin at place `route` stands.
    pub fn secure(&self, route: usize) -> (r: (Stage, Action))
        ensures
            steps_as(r, connected_step(self@, route as int)),
    {
        match self.target(route) {
            Some(target) => {
                if same_text(target.scheme(), "https") {
                    (Stage::Securing, Action::Secure { host: target.host().to_owned() })
                } else if same_text(target.scheme(), "http") {
                    (Stage::Exchanging, Action::Exchange)
                } else {
                    fail(ForwardError::UnsupportedScheme(target.scheme().to_owned()))
                }
            },
            None => fail(ForwardError::UnknownDomain),
        }
    }

    /// The step after the origin answered with `head`.
    pub fn answer(&self, head: ResponseHead) -> (r: (Stage, Action))
        ensures
            steps_as(r, answered(self@, head@)),
    {
        let text = head.has_text_body();
        let encoding = match &head.content_encoding {
            Some(name) => Some(Encoding::from_name(name.as_str())),
            None => None,
        };
        let unhandled = match &head.content_encoding {
            Some(name) => Some(name.clone()),
            None => None,
        };
        let status = head.status;
        let new = self.rewrite_head(head);
        if status == NOT_MODIFIED {
            (Stage::Done, Action::Reply { head: new, body: Body::Untouched, warning: None })
        } else {
            match (encoding, unhandled) {
                (Some(None), Some(name)) => (
                    Stage::Done,
                    Action::Reply {
                        head: new,
                        body: Body::Untouched,
                        warning: Some(ForwardError::UnhandledEncoding(name)),
                    },
                ),
                (Some(Some(e)), _) => if text {
                    (Stage::Reading { head: new }, Action::Read)
                } else {
                    (
                        Stage::Done,
                        Action::Reply { head: new, body: Body::Recoded(e), warning: None },
                    )
                },
                _ => if text {
                    (Stage::Reading { head: new }, Action::Read)
                } else {
                    (
                        Stage::Done,
                        Action::Reply { head: new, body: Body::Untouched, warning: None },
                    )
                },
            }
        }
    }

    /// The step after the body under the rewritten head `head` was read.
    pub fn finish(&self, head: ResponseHead, body: Vec<u8>) -> (r: (Stage, Action))
        ensures
            steps_as(r, finished(self@, head@, body@)),
    {
        let rewritten = match &head.content_encoding {
            Some(name) => self.rewrite_body(Some(name.as_str()), body.as_slice()),
            None => self.rewrite_body(None, body.as_slice()),
        };
        match rewritten {
            Ok(new) => (
                Stage::Done,
                Action::Reply { head, body: Body::Replaced(new), warning: None },
            ),
            Err(e) => (
                Stage::Done,
                Action::Reply { head, body: Body::Replaced(body), warning: Some(e) },
            ),
        }
    }
}

} // verus!
