use crate::cookie::{strip_domain, without_domain};
use crate::forward::{rewritten, Forward, RouteView};
use crate::target::{Target, TargetView};
use crate::text::same_text;
use http_types::Mime;
use vstd::prelude::*;

verus! {

/// What the proxy changes of a request: where its URL points, and its `Host`
/// header. The path stands for all that it leaves alone.
#[derive(Debug)]
pub struct RequestHead {
    /// The URL's scheme.
    pub scheme: String,
    /// The URL's host, if it has one.
    pub host: Option<String>,
    /// The port that the URL points at, if one can be told.
    pub port: Option<u16>,
    /// The URL's path and query.
    pub path: String,
    /// The `Host` header, if the request has one.
    pub host_header: Option<String>,
}

/// A `RequestHead` as a mathematical value.
pub struct RequestHeadView {
    pub scheme: Seq<char>,
    pub host: Option<Seq<char>>,
    pub port: Option<u16>,
    pub path: Seq<char>,
    pub host_header: Option<Seq<char>>,
}

impl View for RequestHead {
    type V = RequestHeadView;

    open spec fn view(&self) -> RequestHeadView {
        RequestHeadView {
            scheme: self.scheme@,
            host: self.host.deep_view(),
            port: self.port,
            path: self.path@,
            host_header: self.host_header.deep_view(),
        }
    }
}

/// The request pointed at `target`: scheme, host, port and `Host` header are
/// the target's, the rest is as it was.
pub open spec fn fused(target: TargetView, req: RequestHeadView) -> RequestHeadView {
    RequestHeadView {
        scheme: target.scheme,
        host: Some(target.host),
        port: Some(target.port),
        path: req.path,
        host_header: Some(target.host),
    }
}

impl Target {
    /// The request pointed at this target.
    pub fn fuse_request(&self, req: RequestHead) -> (r: RequestHead)
        ensures
            r@ == fused(self@, req@),
    {
        let RequestHead { scheme: _, host: _, port: _, path, host_header: _ } = req;
        RequestHead {
            scheme: self.scheme().to_owned(),
            host: Some(self.host().to_owned()),
            port: Some(self.port()),
            path,
            host_header: Some(self.host().to_owned()),
        }
    }
}

/// What the proxy reads of a response before it touches the body.
#[derive(Debug)]
pub struct ResponseHead {
    /// The status code.
    pub status: u16,
    /// The `location` header, if there is one.
    pub location: Option<String>,
    /// The `referer` header, if there is one.
    pub referer: Option<String>,
    /// The values of the `set-cookie` header, in order; none where the
    /// response has no such header.
    pub set_cookie: Vec<String>,
    /// The `content-encoding` header, if there is one.
    pub content_encoding: Option<String>,
    /// The `content-type` header, if there is one.
    pub content_type: Option<String>,
}

/// A `ResponseHead` as a mathematical value.
pub struct ResponseHeadView {
    pub status: u16,
    pub location: Option<Seq<char>>,
    pub referer: Option<Seq<char>>,
    pub set_cookie: Seq<Seq<char>>,
    pub content_encoding: Option<Seq<char>>,
    pub content_type: Option<Seq<char>>,
}

impl View for ResponseHead {
    type V = ResponseHeadView;

    open spec fn view(&self) -> ResponseHeadView {
        ResponseHeadView {
            status: self.status,
            location: self.location.deep_view(),
            referer: self.referer.deep_view(),
            set_cookie: self.set_cookie.deep_view(),
            content_encoding: self.content_encoding.deep_view(),
            content_type: self.content_type.deep_view(),
        }
    }
}

/// A header value with the origins replaced, where there is a value.
pub open spec fn value_rewritten(routes: Seq<RouteView>, value: Option<Seq<char>>) -> Option<
    Seq<char>,
> {
    match value {
        Some(text) => Some(rewritten(routes, text)),
        None => None,
    }
}

/// The head as the client gets it: in `location` and `referer` each origin
/// gives way to its public domain, every cookie loses its domain attributes,
/// and the rest is as the origin sent it.
pub open spec fn head_rewritten(routes: Seq<RouteView>, head: ResponseHeadView) -> ResponseHeadView {
    ResponseHeadView {
        status: head.status,
        location: value_rewritten(routes, head.location),
        referer: value_rewritten(routes, head.referer),
        set_cookie: Seq::new(head.set_cookie.len(), |i: int| without_domain(head.set_cookie[i])),
        content_encoding: head.content_encoding,
        content_type: head.content_type,
    }
}

/// The status of a response that has nothing new to send.
pub const NOT_MODIFIED: u16 = 304;

/// What `Mime::from_str` makes of a `content-type` value: nothing where it
/// refuses the value, else the essence of the type, `type/subtype`.
pub uninterp spec fn essence_of(content_type: Seq<char>) -> Option<Seq<char>>;

/// `Mime::from_str` of `http_types`, reached through `str::parse`, and
/// `Mime::essence` of what it gives. The contract only gives the outcome its
/// name, `essence_of`.
#[verifier::external_body]
fn mime_essence(content_type: &str) -> (r: Option<String>)
    ensures
        r.deep_view() == essence_of(content_type@),
{
    match content_type.parse::<Mime>() {
        Ok(mime) => Some(mime.essence().to_string()),
        Err(_) => None,
    }
}

/// Whether a body of the type with this essence is text in which origins are
/// replaced.
pub open spec fn is_text(essence: Seq<char>) -> bool {
    essence == "text/html"@ || essence == "text/javascript"@ || essence == "application/json"@
        || essence == "application/manifest+json"@
}

/// Whether a body under this `content-type` header is rewritten.
pub open spec fn body_is_text(content_type: Option<Seq<char>>) -> bool {
    match content_type {
        Some(value) => match essence_of(value) {
            Some(essence) => is_text(essence),
            None => false,
        },
        None => false,
    }
}

/// Whether a body of the type with this essence is text in which origins are
/// replaced.
pub fn rewritable(essence: &str) -> (b: bool)
    ensures
        b == is_text(essence@),
{
    same_text(essence, "text/html") || same_text(essence, "text/javascript") || same_text(
        essence,
        "application/json",
    ) || same_text(essence, "application/manifest+json")
}

impl ResponseHead {
    /// Whether the body under this head is rewritten, by its `content-type`.
    pub fn has_text_body(&self) -> (b: bool)
        ensures
            b == body_is_text(self@.content_type),
    {
        match &self.content_type {
            Some(value) => match mime_essence(value.as_str()) {
                Some(essence) => rewritable(essence.as_str()),
                None => false,
            },
            None => false,
        }
    }
}

impl Forward {
    /// A header value with the origins replaced, where there is a value.
    pub fn rewrite_value(&self, value: Option<String>) -> (r: Option<String>)
        ensures
            r.deep_view() == value_rewritten(self@, value.deep_view()),
    {
        match value {
            Some(text) => Some(self.rewrite(text.as_str())),
            None => None,
        }
    }

    /// The head as the client gets it.
    pub fn rewrite_head(&self, head: ResponseHead) -> (r: ResponseHead)
        ensures
            r@ == head_rewritten(self@, head@),
    {
        let ResponseHead { status, location, referer, set_cookie, content_encoding, content_type } =
            head;
        let mut cookies: Vec<String> = Vec::new();
        let mut i: usize = 0;
        while i < set_cookie.len()
            invariant
                i <= set_cookie.len(),
                cookies.len() == i,
                forall|j: int|
                    0 <= j < i ==> (#[trigger] cookies@[j])@ == without_domain(set_cookie@[j]@),
            decreases set_cookie.len() - i,
        {
            cookies.push(strip_domain(set_cookie[i].as_str()));
            i += 1;
        }
        let r = ResponseHead {
            status,
            location: self.rewrite_value(location),
            referer: self.rewrite_value(referer),
            set_cookie: cookies,
            content_encoding,
            content_type,
        };
        assert(r@.set_cookie =~= head_rewritten(self@, head@).set_cookie);
        r
    }
}

} // verus!
