use crate::error::{Failure, ForwardError};
use crate::text::{
    chars_of, contains, decimal, lemma_decimal_nonempty, occurs_in, push_decimal, same_text,
    string_of,
};
use http_types::url::ParseError;
use http_types::Url;
use vstd::prelude::*;
use vstd::string::StringExecFns;

verus! {

/// The error of `Url::parse`. Nothing is read from it.
#[verifier::external_type_specification]
#[verifier::external_body]
pub struct ExParseError(ParseError);

/// What the resolver reads from a parsed URL.
#[derive(Debug)]
pub struct UrlParts {
    /// The scheme, without `://`.
    pub scheme: String,
    /// The host, if the URL has one.
    pub host: Option<String>,
    /// The port that the URL names or, without one, the port that its scheme
    /// is known for, if any.
    pub port: Option<u16>,
}

/// `UrlParts` as a mathematical value.
pub struct UrlPartsView {
    pub scheme: Seq<char>,
    pub host: Option<Seq<char>>,
    pub port: Option<u16>,
}

impl View for UrlParts {
    type V = UrlPartsView;

    open spec fn view(&self) -> UrlPartsView {
        UrlPartsView {
            scheme: self.scheme@,
            host: match self.host {
                Some(h) => Some(h@),
                None => None,
            },
            port: self.port,
        }
    }
}

/// What `Url::parse` makes of the text `url`: nothing where it refuses the
/// text, else the URL's scheme, host and port.
pub uninterp spec fn url_parts(url: Seq<char>) -> Option<UrlPartsView>;

/// `Url::parse` of the `url` crate, as `http_types` hands it on, and of the
/// URL it gives `Url::scheme`, `Url::host_str` and
/// `Url::port_or_known_default`. The contract only gives the outcome its
/// name: the parts are those that `url_parts` stands for, and the call fails
/// exactly where `url_parts` is nothing.
#[verifier::external_body]
fn parse_url(url: &str) -> (r: Result<UrlParts, ParseError>)
    ensures
        match r {
            Ok(parts) => url_parts(url@) == Some(parts@),
            Err(_) => url_parts(url@) is None,
        },
{
    match Url::parse(url) {
        Ok(url) => Ok(
            UrlParts {
                scheme: url.scheme().to_string(),
                host: url.host_str().map(String::from),
                port: url.port_or_known_default(),
            },
        ),
        Err(e) => Err(e),
    }
}

/// One origin: where the requests for a public domain go.
#[derive(Debug)]
pub struct Target {
    scheme: String,
    host: String,
    port: u16,
}

/// A `Target` as a mathematical value.
pub struct TargetView {
    pub scheme: Seq<char>,
    pub host: Seq<char>,
    pub port: u16,
}

/// The port that goes without saying under a scheme, and is left out of
/// `host_with_port`: 80 under `http`, 443 under `https`. Under any other
/// scheme the port is always written.
pub open spec fn implied_port(scheme: Seq<char>) -> Option<u16> {
    if scheme == "http"@ {
        Some(80u16)
    } else if scheme == "https"@ {
        Some(443u16)
    } else {
        None
    }
}

impl TargetView {
    /// A target has a host and a port from 1 to 65535.
    pub open spec fn wf(self) -> bool {
        self.host.len() > 0 && self.port >= 1
    }

    /// The text by which the origin shows in headers and bodies: the host
    /// alone where the port is the one that goes without saying under the
    /// scheme, else the host, a colon and the port in decimal.
    pub open spec fn host_with_port(self) -> Seq<char> {
        if implied_port(self.scheme) == Some(self.port) {
            self.host
        } else {
            self.host + seq![':'] + decimal(self.port as nat)
        }
    }
}

/// The origin text as it is parsed: as it stands where it holds `://`, else
/// taken for an `https` origin.
pub open spec fn with_scheme(origin: Seq<char>) -> Seq<char> {
    if occurs_in("://"@, origin) {
        origin
    } else {
        "https://"@ + origin
    }
}

/// The target that the parts of a URL give: they must hold a host that is not
/// empty and a port that is not 0.
pub open spec fn target_of(parts: UrlPartsView) -> Result<TargetView, Failure> {
    match (parts.host, parts.port) {
        (Some(host), Some(port)) => if host.len() > 0 && port >= 1 {
            Ok(TargetView { scheme: parts.scheme, host, port })
        } else {
            Err(Failure::InvalidDomain)
        },
        _ => Err(Failure::InvalidDomain),
    }
}

/// The target that an origin text gives, by what the URL parser makes of it.
pub open spec fn resolved(origin: Seq<char>) -> Result<TargetView, Failure> {
    match url_parts(with_scheme(origin)) {
        Some(parts) => target_of(parts),
        None => Err(Failure::InvalidTarget),
    }
}

/// Whether an outcome is the one that the model gives.
pub open spec fn answers(r: Result<Target, ForwardError>, model: Result<TargetView, Failure>) -> bool {
    match model {
        Ok(v) => r matches Ok(t) && t@ == v,
        Err(e) => r matches Err(x) && x@ == e,
    }
}

/// The target that an origin text gives has the scheme, host and port that
/// the parser read from it, and shows as that host alone exactly where the
/// port is the one that goes without saying under the scheme; else as the
/// host, a colon and the port in decimal.
pub proof fn lemma_resolved_round_trip(origin: Seq<char>)
    requires
        resolved(origin) is Ok,
    ensures
        ({
            let parts = url_parts(with_scheme(origin))->0;
            let target = resolved(origin)->Ok_0;
            &&& target.wf()
            &&& target.scheme == parts.scheme
            &&& parts.host == Some(target.host)
            &&& parts.port == Some(target.port)
            &&& implied_port(target.scheme) == Some(target.port) ==> target.host_with_port()
                == target.host
            &&& implied_port(target.scheme) != Some(target.port) ==> target.host_with_port()
                == target.host + seq![':'] + decimal(target.port as nat)
            &&& target.host_with_port() == target.host <==> implied_port(target.scheme) == Some(
                target.port,
            )
        }),
{
    let target = resolved(origin)->Ok_0;
    lemma_decimal_nonempty(target.port as nat);
    if implied_port(target.scheme) != Some(target.port) {
        assert(target.host_with_port().len() > target.host.len());
    }
}

impl View for Target {
    type V = TargetView;

    closed spec fn view(&self) -> TargetView {
        TargetView { scheme: self.scheme@, host: self.host@, port: self.port }
    }
}

impl Target {
    /// The scheme by which the origin is reached.
    pub fn scheme(&self) -> (s: &str)
        ensures
            s@ == self@.scheme,
    {
        self.scheme.as_str()
    }

    /// The origin's host.
    pub fn host(&self) -> (s: &str)
        ensures
            s@ == self@.host,
    {
        self.host.as_str()
    }

    /// The origin's port.
    pub fn port(&self) -> (p: u16)
        ensures
            p == self@.port,
    {
        self.port
    }

    /// The text by which the origin shows in headers and bodies.
    pub fn host_with_port(&self) -> (s: String)
        ensures
            s@ == self@.host_with_port(),
    {
        if (same_text(self.scheme.as_str(), "http") && self.port == 80) || (same_text(
            self.scheme.as_str(),
            "https",
        ) && self.port == 443) {
            proof {
                reveal_strlit("http");
                reveal_strlit("https");
                assert("http"@.len() != "https"@.len());
            }
            self.host.clone()
        } else {
            let mut out = chars_of(self.host.as_str());
            out.push(':');
            push_decimal(self.port, &mut out);
            assert(out@ =~= self@.host + seq![':'] + decimal(self.port as nat));
            string_of(out.as_slice())
        }
    }

    /// The target that the parts of a parsed URL give.
    pub fn from_parts(parts: UrlParts) -> (r: Result<Target, ForwardError>)
        ensures
            answers(r, target_of(parts@)),
            r matches Ok(t) ==> t@.wf(),
    {
        let UrlParts { scheme, host, port } = parts;
        match (host, port) {
            (Some(host), Some(port)) => {
                if host.as_str().unicode_len() > 0 && port >= 1 {
                    Ok(Target { scheme, host, port })
                } else {
                    Err(ForwardError::InvalidDomain)
                }
            },
            _ => Err(ForwardError::InvalidDomain),
        }
    }

    /// The target that the text `origin` stands for. A text without `://` is
    /// taken for an `https` origin.
    pub fn try_from(origin: &str) -> (r: Result<Target, ForwardError>)
        ensures
            answers(r, resolved(origin@)),
            r matches Ok(t) ==> t@.wf(),
    {
        let chars = chars_of(origin);
        let mark = chars_of("://");
        let full = if contains(chars.as_slice(), mark.as_slice()) {
            origin.to_owned()
        } else {
            "https://".to_owned().concat(origin)
        };
        match parse_url(full.as_str()) {
            Ok(parts) => Target::from_parts(parts),
            Err(_) => Err(ForwardError::InvalidTarget),
        }
    }
}

} // verus!
